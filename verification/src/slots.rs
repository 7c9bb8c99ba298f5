//! Representation slots backing locally defined resources.
//!
//! The boundary speaks about a locally defined resource through an
//! address-sized representation token, not through the host value itself. The
//! runtime therefore boxes each host value into a slot, hands the slot's
//! token to the boundary, and later recovers the value through the same
//! token. A slot starts populated and becomes empty exactly once, when
//! ownership is taken back into the host language; the arena keeps explicit
//! populated/empty state, so a second take-back is refused instead of
//! touching freed storage.

use vstd::prelude::*;
use crate::lift::CanonError;

verus! {

/// An arena of representation slots. A token is an index into the arena's
/// history of slots; tokens are never reused, and each slot holds its value
/// until ownership is taken back.
pub struct SlotArena<V> {
    slots: Vec<Option<V>>,
}

/// True when `token` names a slot of `slots` that still holds its value.
pub open spec fn slot_populated<V>(slots: Seq<Option<V>>, token: int) -> bool {
    0 <= token < slots.len() && slots[token] is Some
}

impl<V> SlotArena<V> {
    /// An arena with no slots.
    pub fn new() -> (a: SlotArena<V>)
        ensures
            a@ == Seq::<Option<V>>::empty(),
    {
        SlotArena { slots: Vec::new() }
    }

    /// Boxes a host value into a fresh slot and returns the slot's token.
    pub fn insert(&mut self, value: V) -> (token: usize)
        ensures
            token == old(self)@.len(),
            final(self)@ == old(self)@.push(Some(value)),
            slot_populated(final(self)@, token as int),
    {
        let token = self.slots.len();
        self.slots.push(Some(value));
        token
    }

    /// Takes the host value back out of a slot, emptying it. A token that
    /// names no slot, or a slot already emptied, is the use-after-take-back
    /// case and is refused.
    pub fn take(&mut self, token: usize) -> (r: Result<V, CanonError>)
        ensures
            match r {
                Ok(v) => {
                    &&& slot_populated(old(self)@, token as int)
                    &&& old(self)@[token as int] == Some(v)
                    &&& final(self)@ == old(self)@.update(token as int, None)
                },
                Err(e) => {
                    &&& !slot_populated(old(self)@, token as int)
                    &&& e == CanonError::EmptySlot
                    &&& final(self)@ == old(self)@
                },
            },
            r is Ok <==> slot_populated(old(self)@, token as int),
    {
        if token >= self.slots.len() {
            return Err(CanonError::EmptySlot);
        }
        let slot = &mut self.slots[token];
        match slot.take() {
            Some(v) => Ok(v),
            None => {
                proof {
                    assert(self.slots@ =~= old(self).slots@);
                }
                Err(CanonError::EmptySlot)
            },
        }
    }

    /// Borrows the host value in a slot without touching its populated/empty
    /// state. An emptied slot is refused for the same reason as in [`Self::take`].
    pub fn borrow(&self, token: usize) -> (r: Result<&V, CanonError>)
        ensures
            match r {
                Ok(v) => slot_populated(self@, token as int) && self@[token as int] == Some(*v),
                Err(e) => !slot_populated(self@, token as int) && e == CanonError::EmptySlot,
            },
            r is Ok <==> slot_populated(self@, token as int),
    {
        if token >= self.slots.len() {
            return Err(CanonError::EmptySlot);
        }
        match &self.slots[token] {
            Some(v) => Ok(v),
            None => Err(CanonError::EmptySlot),
        }
    }
}

impl<V> View for SlotArena<V> {
    type V = Seq<Option<V>>;

    closed spec fn view(&self) -> Seq<Option<V>> {
        self.slots@
    }
}

/// Take-back happens at most once: after a take-back empties a slot, the same
/// token no longer names a populated slot, so a later take-back through it is
/// refused rather than performed a second time.
pub proof fn lemma_take_back_at_most_once<V>(slots: Seq<Option<V>>, token: int)
    requires
        0 <= token < slots.len(),
    ensures
        !slot_populated(slots.update(token, None), token),
{
}

/// A freshly boxed value is there to be taken back: the slot that `insert`
/// appends is populated with exactly the inserted value, under exactly the
/// token that `insert` returns.
pub proof fn lemma_fresh_slot_holds_value<V>(slots: Seq<Option<V>>, value: V)
    ensures
        slot_populated(slots.push(Some(value)), slots.len() as int),
        slots.push(Some(value))[slots.len() as int] == Some(value),
{
}

} // verus!
