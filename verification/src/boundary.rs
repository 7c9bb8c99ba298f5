//! A boundary implementation for locally defined resources.
//!
//! [`LocalBoundary`] is a host-side table of registered resources that
//! satisfies both capability traits: handles are issued in order and never
//! reused, each live handle remembers the representation token it was
//! registered with, and dropping a handle retires it for good. It gives the
//! resource lifecycle a concrete, fully verified boundary to run against.

use vstd::prelude::*;
use crate::resource::{RustResource, WasmResource, SENTINEL};

verus! {

/// A verified boundary: handle `h` is live exactly when entry `h` of the
/// table still holds the representation token it was registered with.
pub struct LocalBoundary {
    entries: Vec<Option<usize>>,
}

impl LocalBoundary {
    /// A boundary with no resources.
    pub fn new() -> (b: LocalBoundary)
        ensures
            b.live() == Set::<u32>::empty(),
            b.reps() == Map::<u32, usize>::empty(),
            b.can_register(),
    {
        let b = LocalBoundary { entries: Vec::new() };
        proof {
            assert(b.live() =~= Set::<u32>::empty());
            assert(b.reps() =~= Map::<u32, usize>::empty());
        }
        b
    }

    /// Whether the boundary still considers `handle` alive.
    pub fn is_live(&self, handle: u32) -> (b: bool)
        ensures
            b == self.live().contains(handle),
    {
        if (handle as usize) < self.entries.len() {
            match &self.entries[handle as usize] {
                Some(_) => true,
                None => false,
            }
        } else {
            false
        }
    }
}

impl WasmResource for LocalBoundary {
    closed spec fn live(&self) -> Set<u32> {
        Set::new(|h: u32| h < self.entries@.len() && self.entries@[h as int] is Some)
    }

    fn drop_handle(&mut self, handle: u32) {
        self.entries[handle as usize] = None;
        proof {
            assert(self.live() =~= old(self).live().remove(handle));
        }
    }
}

impl RustResource for LocalBoundary {
    closed spec fn reps(&self) -> Map<u32, usize> {
        Map::new(
            |h: u32| h < self.entries@.len() && self.entries@[h as int] is Some,
            |h: u32| self.entries@[h as int].unwrap(),
        )
    }

    closed spec fn can_register(&self) -> bool {
        self.entries@.len() < SENTINEL
    }

    fn new_handle(&mut self, rep: usize) -> (h: u32) {
        let h = self.entries.len() as u32;
        self.entries.push(Some(rep));
        proof {
            assert(self.live() =~= old(self).live().insert(h));
            assert(self.reps() =~= old(self).reps().insert(h, rep));
        }
        h
    }

    fn rep(&self, handle: u32) -> (r: usize) {
        match &self.entries[handle as usize] {
            Some(t) => *t,
            None => vstd::pervasive::unreached(),
        }
    }
}

/// Registering a resource and immediately resolving the fresh handle yields
/// the representation token that was registered: after `new` extends the
/// boundary's token map with the fresh handle, `rep` on that handle is that
/// token.
pub proof fn lemma_new_then_rep(pre: Map<u32, usize>, post: Map<u32, usize>, h: u32, token: usize)
    requires
        post == pre.insert(h, token),
    ensures
        post.dom().contains(h),
        post[h] == token,
{
}

} // verus!
