//! The registry: one image set per compiled module, built on first use.

use vstd::prelude::*;
use std::collections::HashMap;
use std::sync::Arc;
use crate::builder::{build_memfds, built_with, result_view, ImageError};
use crate::image::ModuleMemFds;
use crate::layout::ModuleLayout;

verus! {

broadcast use vstd::std_specs::hash::group_hash_axioms;

/// The identity of a compiled module: unique among the modules of a process.
#[derive(Clone, Copy, Debug, PartialEq, Eq, Hash)]
pub struct CompiledModuleId(pub u64);

/// The set that a caller gets who comes with `built` for module `id`: the
/// one the registry holds, if it holds one, else its own.
pub open spec fn claimed<T>(held: Map<u64, Arc<T>>, id: u64, built: Arc<T>) -> Arc<T> {
    if held.contains_key(id) {
        held[id]
    } else {
        built
    }
}

/// What the registry holds after that caller has come.
pub open spec fn after_claim<T>(held: Map<u64, Arc<T>>, id: u64, built: Arc<T>) -> Map<
    u64,
    Arc<T>,
> {
    if held.contains_key(id) {
        held
    } else {
        held.insert(id, built)
    }
}

/// Calls `Arc::clone`: a second handle to the same image set.
#[verifier::external_body]
fn share<T>(set: &Arc<T>) -> (other: Arc<T>)
    ensures
        other == *set,
{
    Arc::clone(set)
}

/// A cache of image sets, one per compiled module. Nothing is ever removed.
///
/// `T` is the kind of image set that is kept: `ModuleMemFds`, or what a host
/// makes of one. A registry that several threads share sits behind a lock.
/// Such callers hold the lock for `lookup` and for `claim` only and build in
/// between without it; `get_or_create` is the same sequence for a single
/// owner.
pub struct MemFdRegistry<T = ModuleMemFds> {
    memfds: HashMap<u64, Arc<T>>,
}

impl<T> View for MemFdRegistry<T> {
    type V = Map<u64, Arc<T>>;

    closed spec fn view(&self) -> Map<u64, Arc<T>> {
        self.memfds@
    }
}

impl<T> MemFdRegistry<T> {
    /// An empty registry.
    pub fn new() -> (registry: Self)
        ensures
            registry@ == Map::<u64, Arc<T>>::empty(),
    {
        MemFdRegistry { memfds: HashMap::new() }
    }

    /// The image set held for module `id`, if there is one.
    pub fn lookup(&self, id: CompiledModuleId) -> (found: Option<Arc<T>>)
        ensures
            found == if self@.contains_key(id.0) {
                Some(self@[id.0])
            } else {
                None::<Arc<T>>
            },
    {
        match self.memfds.get(&id.0) {
            Some(set) => Some(share(set)),
            None => None,
        }
    }

    /// Offers `built` as the image set of module `id`. If the registry holds
    /// none for it yet, `built` is kept and handed back; else `built` is
    /// dropped and the set that was there first is handed back.
    pub fn claim(&mut self, id: CompiledModuleId, built: Arc<T>) -> (kept: Arc<T>)
        ensures
            kept == claimed(old(self)@, id.0, built),
            final(self)@ == after_claim(old(self)@, id.0, built),
    {
        match self.memfds.get(&id.0) {
            Some(winner) => share(winner),
            None => {
                self.memfds.insert(id.0, share(&built));
                built
            },
        }
    }
}

impl MemFdRegistry<ModuleMemFds> {
    /// The image set of module `id`: the one held, or else a new one, built
    /// from `layout` and `blob` and kept from now on. A failed build leaves
    /// the registry as it was. The layout is read only where nothing is
    /// held yet.
    pub fn get_or_create(
        &mut self,
        id: CompiledModuleId,
        layout: &ModuleLayout,
        blob: &[u8],
    ) -> (res: Result<Arc<ModuleMemFds>, ImageError>)
        requires
            !old(self)@.contains_key(id.0) ==> layout.wf() && layout.data_within(
                blob@.len() as int,
            ),
        ensures
            res matches Ok(set) ==> set == claimed(old(self)@, id.0, set) && final(self)@
                == after_claim(old(self)@, id.0, set),
            old(self)@.contains_key(id.0) ==> final(self)@ == old(self)@ && res == Ok::<
                Arc<ModuleMemFds>,
                ImageError,
            >(old(self)@[id.0]),
            !old(self)@.contains_key(id.0) ==> exists|page: usize| #[trigger]
                built_with(layout, blob@, page as int, result_view(res)),
            !old(self)@.contains_key(id.0) ==> match res {
                Ok(set) => final(self)@ == old(self)@.insert(id.0, set),
                Err(_) => final(self)@ == old(self)@,
            },
    {
        match self.lookup(id) {
            Some(set) => Ok(set),
            None => {
                match build_memfds(layout, blob) {
                    Ok(built) => Ok(self.claim(id, built)),
                    Err(e) => Err(e),
                }
            },
        }
    }
}

} // verus!
