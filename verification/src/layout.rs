//! The memory layout of a module: how many memories it has, how large each
//! is at least, and the initializers that fill them.

use vstd::prelude::*;
use crate::host::wasm_page_size;

verus! {

/// No image is ever larger than this many bytes (1 GiB).
pub const MAX_MEMFD_IMAGE_SIZE: u64 = 1073741824;

/// Bytes in one WebAssembly page.
pub const WASM_PAGE_BYTES: u64 = 65536;

/// One data segment of a module that is initialized segment by segment.
#[derive(Clone, Copy, Debug)]
pub struct MemorySegment {
    /// The memory it targets, counted over imported and defined memories.
    pub memory_index: usize,
    /// Whether the offset is added to a base that is only known at run time.
    pub dynamic_base: bool,
    /// Byte offset in the target memory.
    pub offset: u64,
    /// Where the segment's bytes start in the module's data.
    pub data_start: u32,
    /// Where they end (exclusive).
    pub data_end: u32,
}

/// One entry of a module that is initialized page by page.
#[derive(Clone, Copy, Debug)]
pub struct PageEntry {
    /// Byte offset in the memory.
    pub base: u64,
    /// Where the entry's bytes start in the module's data.
    pub data_start: u32,
    /// Where they end (exclusive).
    pub data_end: u32,
}

/// How a module's memories are initialized.
#[derive(Debug)]
pub enum MemoryInit {
    /// An ordered list of segments over all memories.
    Segmented(Vec<MemorySegment>),
    /// For each defined memory, in index order, its page entries. Memories
    /// past the end of the list have none.
    Paged(Vec<Vec<PageEntry>>),
}

/// What the image builder reads of a module.
#[derive(Debug)]
pub struct ModuleLayout {
    /// How many of the memories are imported; they come first.
    pub num_imported_memories: usize,
    /// The minimum size of every memory, in WebAssembly pages.
    pub minimum_pages: Vec<u64>,
    /// The initializers.
    pub initialization: MemoryInit,
}

/// One initializer as the builder sees it when it works on one defined memory.
#[derive(Clone, Copy, Debug)]
pub struct Initializer {
    /// Whether it targets the memory at hand.
    pub targets: bool,
    /// Whether its offset is only known at run time.
    pub dynamic: bool,
    /// Byte offset in the memory.
    pub offset: u64,
    /// Where its bytes start in the module's data.
    pub data_start: u32,
    /// Where they end (exclusive).
    pub data_end: u32,
}

impl Initializer {
    /// Number of bytes it writes.
    pub open spec fn len(&self) -> int {
        self.data_end - self.data_start
    }

    /// One past the last byte offset it writes.
    pub open spec fn top(&self) -> int {
        self.offset + self.len()
    }

    /// Whether it writes to byte offset `k`.
    pub open spec fn covers(&self, k: int) -> bool {
        self.offset <= k < self.top()
    }
}

impl ModuleLayout {
    /// Number of memories the module defines itself.
    pub open spec fn defined_memories(&self) -> int {
        self.minimum_pages@.len() - self.num_imported_memories
    }

    /// The layout is consistent: the imported memories are among the
    /// memories, every segment names a memory, page entries are given for
    /// defined memories only, and no byte range ends before it starts.
    pub open spec fn wf(&self) -> bool {
        &&& self.num_imported_memories <= self.minimum_pages@.len()
        &&& match self.initialization {
            MemoryInit::Segmented(segments) => forall|i: int|
                0 <= i < segments@.len() ==> {
                    &&& (#[trigger] segments@[i]).memory_index < self.minimum_pages@.len()
                    &&& segments@[i].data_start <= segments@[i].data_end
                },
            MemoryInit::Paged(pages) => {
                &&& pages@.len() <= self.defined_memories()
                &&& forall|d: int, i: int|
                    0 <= d < pages@.len() && 0 <= i < pages@[d]@.len() ==> (
                    #[trigger] pages@[d]@[i]).data_start <= pages@[d]@[i].data_end
            },
        }
    }

    /// Every byte range lies in a data blob of `blob_len` bytes.
    pub open spec fn data_within(&self, blob_len: int) -> bool {
        match self.initialization {
            MemoryInit::Segmented(segments) => forall|i: int|
                0 <= i < segments@.len() ==> (#[trigger] segments@[i]).data_end <= blob_len,
            MemoryInit::Paged(pages) => forall|d: int, i: int|
                0 <= d < pages@.len() && 0 <= i < pages@[d]@.len() ==> (
                #[trigger] pages@[d]@[i]).data_end <= blob_len,
        }
    }

    /// How many initializers the builder walks for defined memory `d`.
    pub open spec fn entry_count(&self, d: int) -> int {
        match self.initialization {
            MemoryInit::Segmented(segments) => segments@.len() as int,
            MemoryInit::Paged(pages) => if 0 <= d < pages@.len() {
                pages@[d]@.len() as int
            } else {
                0
            },
        }
    }

    /// The `i`-th of them.
    pub open spec fn entry(&self, d: int, i: int) -> Initializer {
        match self.initialization {
            MemoryInit::Segmented(segments) => Initializer {
                targets: segments@[i].memory_index == self.num_imported_memories + d,
                dynamic: segments@[i].dynamic_base,
                offset: segments@[i].offset,
                data_start: segments@[i].data_start,
                data_end: segments@[i].data_end,
            },
            MemoryInit::Paged(pages) => Initializer {
                targets: true,
                dynamic: false,
                offset: pages@[d]@[i].base,
                data_start: pages@[d]@[i].data_start,
                data_end: pages@[d]@[i].data_end,
            },
        }
    }

    /// The declared minimum size of defined memory `d`, in bytes.
    pub open spec fn minimum_bytes(&self, d: int) -> int {
        self.minimum_pages@[self.num_imported_memories + d] * WASM_PAGE_BYTES
    }

    /// The largest end offset an initializer of defined memory `d` may have:
    /// the hard cap, and for segments also the memory's minimum size.
    pub open spec fn size_limit(&self, d: int) -> int {
        match self.initialization {
            MemoryInit::Segmented(_) => if self.minimum_bytes(d) < MAX_MEMFD_IMAGE_SIZE {
                self.minimum_bytes(d)
            } else {
                MAX_MEMFD_IMAGE_SIZE as int
            },
            MemoryInit::Paged(_) => MAX_MEMFD_IMAGE_SIZE as int,
        }
    }

    /// Initializer `i` rules out an image for defined memory `d`: it targets
    /// that memory and its base is dynamic or its end lies past the limit
    /// (an end past the address range lies past the limit too).
    pub open spec fn rejects(&self, d: int, i: int) -> bool {
        let e = self.entry(d, i);
        e.targets && (e.dynamic || e.top() > self.size_limit(d))
    }

    /// Initializer `i` is written into the image of defined memory `d`.
    pub open spec fn records(&self, d: int, i: int) -> bool {
        self.entry(d, i).targets && !self.rejects(d, i)
    }

    /// Number of memories the module defines itself.
    pub fn num_defined_memories(&self) -> (n: usize)
        requires
            self.num_imported_memories <= self.minimum_pages@.len(),
        ensures
            n == self.defined_memories(),
    {
        self.minimum_pages.len() - self.num_imported_memories
    }

    /// How many initializers there are to walk for defined memory `d`.
    pub fn num_entries(&self, d: usize) -> (n: usize)
        ensures
            n == self.entry_count(d as int),
    {
        match &self.initialization {
            MemoryInit::Segmented(segments) => segments.len(),
            MemoryInit::Paged(pages) => if d < pages.len() {
                pages[d].len()
            } else {
                0
            },
        }
    }

    /// The `i`-th initializer, seen from defined memory `d`.
    pub fn initializer(&self, d: usize, i: usize) -> (e: Initializer)
        requires
            d < self.defined_memories(),
            i < self.entry_count(d as int),
        ensures
            e == self.entry(d as int, i as int),
    {
        match &self.initialization {
            MemoryInit::Segmented(segments) => {
                let s = &segments[i];
                Initializer {
                    targets: s.memory_index >= self.num_imported_memories && s.memory_index
                        - self.num_imported_memories == d,
                    dynamic: s.dynamic_base,
                    offset: s.offset,
                    data_start: s.data_start,
                    data_end: s.data_end,
                }
            },
            MemoryInit::Paged(pages) => {
                let p = &pages[d][i];
                Initializer {
                    targets: true,
                    dynamic: false,
                    offset: p.base,
                    data_start: p.data_start,
                    data_end: p.data_end,
                }
            },
        }
    }

    /// The largest end offset an initializer of defined memory `d` may have.
    pub fn limit_of(&self, d: usize) -> (limit: u64)
        requires
            d < self.defined_memories(),
        ensures
            limit == self.size_limit(d as int),
            limit <= MAX_MEMFD_IMAGE_SIZE,
    {
        match &self.initialization {
            MemoryInit::Segmented(_) => {
                let total: usize = self.minimum_pages.len();
                assert(self.num_imported_memories + d < total);
                let pages: u64 = self.minimum_pages[self.num_imported_memories + d];
                let page_bytes: u64 = wasm_page_size();
                if pages >= MAX_MEMFD_IMAGE_SIZE / page_bytes {
                    assert(pages * WASM_PAGE_BYTES >= MAX_MEMFD_IMAGE_SIZE) by (nonlinear_arith)
                        requires
                            pages >= 16384,
                            WASM_PAGE_BYTES == 65536,
                            MAX_MEMFD_IMAGE_SIZE == 1073741824,
                    ;
                    MAX_MEMFD_IMAGE_SIZE
                } else {
                    assert(pages * WASM_PAGE_BYTES < MAX_MEMFD_IMAGE_SIZE) by (nonlinear_arith)
                        requires
                            pages < 16384,
                            WASM_PAGE_BYTES == 65536,
                            MAX_MEMFD_IMAGE_SIZE == 1073741824,
                    ;
                    pages * page_bytes
                }
            },
            MemoryInit::Paged(_) => MAX_MEMFD_IMAGE_SIZE,
        }
    }
}

} // verus!
