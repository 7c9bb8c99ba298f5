//! The cross-boundary resource handle and its lifecycle.
//!
//! A [`Resource`] owns one handle: an opaque 32-bit identifier for a resource
//! instance living on the other side of the boundary, with [`SENTINEL`]
//! reserved to mean "no handle" (already transferred or destroyed). Each
//! instance moves through a two-state machine: `Live` (the handle is valid)
//! and `Taken` (the handle is the sentinel, terminal). The only transition is
//! take-handle, and it never runs backwards.
//!
//! The boundary's intrinsics are described by two capability traits. Every
//! resource type's boundary can destroy a live handle ([`WasmResource`]);
//! only the boundary of a locally defined resource type can additionally
//! register a fresh representation token and resolve a handle back to its
//! token ([`RustResource`]). Contracts speak about the boundary through two
//! views: the set of live handles, and the map from handles to the
//! representation tokens they were registered with.

use vstd::prelude::*;
use crate::lift::CanonError;
use crate::slots::{slot_populated, SlotArena};

verus! {

/// The reserved handle value meaning "no handle".
pub const SENTINEL: u32 = u32::MAX;

/// The boundary intrinsics available for every resource type: dropping a
/// live handle. Implementors describe themselves through `live()`, the set
/// of handles currently alive on the boundary.
pub trait WasmResource: Sized {
    /// The handles currently alive on the boundary.
    spec fn live(&self) -> Set<u32>;

    /// Destroys the boundary-side resource behind `handle`. The boundary's
    /// own contract allows this at most once per live handle, so only a live
    /// handle may be passed; afterwards the handle is gone from the live set.
    fn drop_handle(&mut self, handle: u32)
        requires
            old(self).live().contains(handle),
        ensures
            final(self).live() == old(self).live().remove(handle);
}

/// The additional boundary intrinsics of a locally defined resource type:
/// registering a new resource for a representation token, and resolving a
/// handle back to that token.
pub trait RustResource: WasmResource {
    /// Which representation token each handle was registered with.
    spec fn reps(&self) -> Map<u32, usize>;

    /// True when the boundary can register one more resource.
    spec fn can_register(&self) -> bool;

    /// Registers a new resource whose representation token is `rep`,
    /// returning a fresh live handle that resolves to `rep`.
    fn new_handle(&mut self, rep: usize) -> (h: u32)
        requires
            old(self).can_register(),
        ensures
            h != SENTINEL,
            !old(self).live().contains(h),
            final(self).live() == old(self).live().insert(h),
            final(self).reps() == old(self).reps().insert(h, rep);

    /// Resolves a registered handle back to the representation token it was
    /// registered with.
    fn rep(&self, handle: u32) -> (r: usize)
        requires
            self.reps().dom().contains(handle),
        ensures
            r == self.reps()[handle];
}

/// The owning wrapper around a cross-boundary handle for the resource type
/// whose boundary is `T`.
pub struct Resource<T: WasmResource> {
    handle: u32,
    boundary: core::marker::PhantomData<T>,
}

/// One step of the take-handle machine: the stored handle becomes the
/// sentinel, and the step's observation is the handle that was stored.
pub open spec fn take_step(h: u32) -> (u32, u32) {
    (SENTINEL, h)
}

/// The stored handle after `n` take-handle steps from `h`.
pub open spec fn handle_after_takes(h: u32, n: nat) -> u32
    decreases n,
{
    if n == 0 {
        h
    } else {
        take_step(handle_after_takes(h, (n - 1) as nat)).0
    }
}

/// What the `k`-th take-handle call (counting from zero) observes when a
/// sequence of such calls starts from stored handle `h`.
pub open spec fn take_observation(h: u32, k: nat) -> u32 {
    take_step(handle_after_takes(h, k)).1
}

/// What destroying a resource whose stored handle is `h` does to the
/// boundary's live set: a sentinel means the handle was already transferred
/// and nothing happens; otherwise the one handle leaves the live set.
pub open spec fn destroy_effect(h: u32, live: Set<u32>) -> Set<u32> {
    if h == SENTINEL {
        live
    } else {
        live.remove(h)
    }
}

impl<T: WasmResource> Resource<T> {
    /// The currently stored handle; the resource is live exactly when this
    /// is not the sentinel.
    pub closed spec fn current(&self) -> u32 {
        self.handle
    }

    /// True while the instance still owns its handle.
    pub open spec fn is_live(&self) -> bool {
        self.current() != SENTINEL
    }

    /// Wraps a handle accepted from the boundary. The sentinel is reserved
    /// to mean "already taken" and is not a handle, so it is excluded.
    pub fn from_handle(handle: u32) -> (r: Resource<T>)
        requires
            handle != SENTINEL,
        ensures
            r.current() == handle,
            r.is_live(),
    {
        Resource { handle, boundary: core::marker::PhantomData }
    }

    /// Atomically exchanges the stored handle for the sentinel and returns
    /// the previous value: exactly one take-handle step. Ownership of a
    /// returned non-sentinel handle passes to the caller.
    pub fn take_handle(resource: &mut Resource<T>) -> (h: u32)
        ensures
            (final(resource).current(), h) == take_step(old(resource).current()),
            !final(resource).is_live(),
    {
        let h = resource.handle;
        resource.handle = SENTINEL;
        h
    }

    /// Reads the stored handle without transferring ownership, for passing
    /// the resource by reference across the boundary.
    pub fn handle(resource: &Resource<T>) -> (h: u32)
        ensures
            h == resource.current(),
    {
        resource.handle
    }

    /// Destroys the resource: a live handle is dropped on the boundary
    /// exactly once, and a taken one crosses the boundary not at all. This is
    /// the destructor's rule, written as an explicit operation so that the
    /// boundary effect can be stated.
    pub fn destroy(resource: Resource<T>, boundary: &mut T)
        requires
            resource.is_live() ==> old(boundary).live().contains(resource.current()),
        ensures
            final(boundary).live() == destroy_effect(resource.current(), old(boundary).live()),
    {
        if resource.handle != SENTINEL {
            boundary.drop_handle(resource.handle);
        }
    }

    /// Creates a resource in the export direction: the host value moves into
    /// a fresh representation slot, the slot's token is registered with the
    /// boundary, and the fresh handle is wrapped.
    pub fn new<V>(boundary: &mut T, slots: &mut SlotArena<V>, value: V) -> (r: Resource<T>) where
        T: RustResource,

        requires
            old(boundary).can_register(),
        ensures
            r.is_live(),
            !old(boundary).live().contains(r.current()),
            final(boundary).live() == old(boundary).live().insert(r.current()),
            final(boundary).reps() == old(boundary).reps().insert(
                r.current(),
                old(slots)@.len() as usize,
            ),
            final(slots)@ == old(slots)@.push(Some(value)),
    {
        let token = slots.insert(value);
        let h = boundary.new_handle(token);
        Resource { handle: h, boundary: core::marker::PhantomData }
    }

    /// Takes ownership of the host value back out of a locally defined
    /// resource: the handle resolves to its representation token, and the
    /// token's slot is emptied. A slot already emptied is the
    /// use-after-take-back case and is refused.
    pub fn into_inner<V>(
        resource: Resource<T>,
        boundary: &T,
        slots: &mut SlotArena<V>,
    ) -> (r: Result<V, CanonError>) where T: RustResource
        requires
            resource.is_live(),
            boundary.reps().dom().contains(resource.current()),
        ensures
            ({
                let token = boundary.reps()[resource.current()] as int;
                match r {
                    Ok(v) => {
                        &&& slot_populated(old(slots)@, token)
                        &&& old(slots)@[token] == Some(v)
                        &&& final(slots)@ == old(slots)@.update(token, None)
                    },
                    Err(e) => {
                        &&& !slot_populated(old(slots)@, token)
                        &&& e == CanonError::EmptySlot
                        &&& final(slots)@ == old(slots)@
                    },
                }
            }),
    {
        let token = boundary.rep(resource.handle);
        slots.take(token)
    }

    /// Borrows the host value of a locally defined resource through a raw
    /// representation token, without altering ownership or the slot's state.
    pub fn lift_borrow<'a, V>(rep: usize, slots: &'a SlotArena<V>) -> (r: Result<
        &'a V,
        CanonError,
    >)
        ensures
            match r {
                Ok(v) => slot_populated(slots@, rep as int) && slots@[rep as int] == Some(*v),
                Err(e) => !slot_populated(slots@, rep as int) && e == CanonError::EmptySlot,
            },
    {
        slots.borrow(rep)
    }
}

/// The take-handle transition is monotonic and terminal: once a resource's
/// stored handle has become the sentinel, no number of further take-handle
/// steps brings a valid handle back.
pub proof fn lemma_taken_is_terminal(h: u32, n: nat)
    requires
        n >= 1,
    ensures
        handle_after_takes(h, n) == SENTINEL,
{
}

/// Of any sequence of take-handle calls on one resource, at most the first
/// can observe a value other than the sentinel: every later call observes
/// the sentinel.
pub proof fn lemma_take_observes_live_at_most_once(h: u32, k: nat)
    requires
        k >= 1,
    ensures
        take_observation(h, k) == SENTINEL,
{
}

/// A host value exported through `new` is recovered by the first take-back:
/// the fresh handle resolves to the token `new` registered, and that token's
/// slot holds exactly the exported value, so `into_inner` returns it.
pub proof fn lemma_export_round_trip<V>(
    pre_reps: Map<u32, usize>,
    post_reps: Map<u32, usize>,
    h: u32,
    slots: Seq<Option<V>>,
    value: V,
)
    requires
        slots.len() <= usize::MAX,
        post_reps == pre_reps.insert(h, slots.len() as usize),
    ensures
        post_reps.dom().contains(h),
        slot_populated(slots.push(Some(value)), post_reps[h] as int),
        slots.push(Some(value))[post_reps[h] as int] == Some(value),
{
}

/// Destruction after take-handle never reaches the boundary, while
/// destruction of a never-taken live resource removes its handle from the
/// boundary exactly once (destruction consumes the resource, so no second
/// removal can follow).
pub proof fn lemma_destroy_after_take(h: u32, live: Set<u32>)
    ensures
        destroy_effect(take_step(h).0, live) == live,
        h != SENTINEL && live.contains(h) ==> !destroy_effect(h, live).contains(h)
            && destroy_effect(h, live) == live.remove(h),
{
}

} // verus!
