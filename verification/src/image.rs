//! A memory image and the set of images of one module.

use vstd::prelude::*;
use std::sync::Arc;

verus! {

/// The full initial content of one linear memory. Once built it is never
/// changed: nothing outside the builder can reach its bytes but to read them.
#[derive(Debug)]
pub struct MemoryMemFd {
    data: Vec<u8>,
}

impl View for MemoryMemFd {
    type V = Seq<u8>;

    closed spec fn view(&self) -> Seq<u8> {
        self.data@
    }
}

impl MemoryMemFd {
    /// Seals `data` as an image.
    pub(crate) fn sealed(data: Vec<u8>) -> (image: MemoryMemFd)
        ensures
            image@ == data@,
    {
        MemoryMemFd { data }
    }

    /// The image's length in bytes.
    pub fn len(&self) -> (n: usize)
        ensures
            n == self@.len(),
    {
        self.data.len()
    }

    /// The image's bytes.
    pub fn as_bytes(&self) -> (bytes: &Vec<u8>)
        ensures
            bytes@ == self@,
    {
        &self.data
    }
}

/// What an image slot holds, as plain bytes.
pub open spec fn slot_view(slot: Option<Arc<MemoryMemFd>>) -> Option<Seq<u8>> {
    match slot {
        Some(image) => Some(image@),
        None => None,
    }
}

/// The images of one module: for each memory that the module defines, in
/// index order, its image, or `None` where the memory has to be initialized
/// the slow way.
#[derive(Debug)]
pub struct ModuleMemFds {
    memories: Vec<Option<Arc<MemoryMemFd>>>,
}

impl View for ModuleMemFds {
    type V = Seq<Option<Seq<u8>>>;

    closed spec fn view(&self) -> Seq<Option<Seq<u8>>> {
        Seq::new(self.memories@.len(), |d: int| slot_view(self.memories@[d]))
    }
}

impl ModuleMemFds {
    /// The set that holds `memories`, in that order.
    pub(crate) fn from_slots(memories: Vec<Option<Arc<MemoryMemFd>>>) -> (set: ModuleMemFds)
        ensures
            set@.len() == memories@.len(),
            forall|d: int|
                0 <= d < memories@.len() ==> #[trigger] set@[d] == slot_view(memories@[d]),
    {
        ModuleMemFds { memories }
    }

    /// Number of defined memories the set speaks of.
    pub fn len(&self) -> (n: usize)
        ensures
            n == self@.len(),
    {
        self.memories.len()
    }

    /// The image of one defined memory, if it has one.
    pub fn get_memory_image(&self, defined_index: usize) -> (image: Option<&Arc<MemoryMemFd>>)
        requires
            defined_index < self@.len(),
        ensures
            match image {
                Some(found) => self@[defined_index as int] == Some(found@),
                None => self@[defined_index as int].is_none(),
            },
    {
        self.memories[defined_index].as_ref()
    }
}

} // verus!
