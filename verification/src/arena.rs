//! Dense id-indexed storage with logical delete.
//!
//! A slot is never removed or reused: deleting replaces the live value with a
//! cleared marker produced by a per-entity-kind hook, and the id keeps
//! pointing at the tombstoned slot as a defined no-data outcome.

use vstd::prelude::*;

verus! {

/// The per-entity-kind clearing hook: replaces live content with the kind's
/// own "deleted" representation.
pub trait Tombstone {
    /// Clears the content of a value that is being logically deleted.
    fn on_delete(&mut self);
}

/// A dense id-indexed store with logical delete.
pub struct TombstoneArena<T> {
    slots: Vec<T>,
    live: Vec<bool>,
}

impl<T> TombstoneArena<T> {
    /// The stores's slots never disagree in number with its liveness marks.
    pub closed spec fn wf(&self) -> bool {
        self.slots@.len() == self.live@.len()
    }

    /// How many slots have ever been allocated, tombstoned ones included.
    pub closed spec fn spec_len(&self) -> nat {
        self.slots@.len()
    }

    /// Whether the slot at `i` holds a live value.
    pub closed spec fn live_at(&self, i: int) -> bool {
        0 <= i < self.live@.len() && self.live@[i]
    }

    /// The value stored at `i`.
    pub closed spec fn value_at(&self, i: int) -> T
        recommends
            0 <= i < self.spec_len(),
    {
        self.slots@[i]
    }

    /// A live slot always lies inside the store.
    pub proof fn lemma_live_in_range(&self)
        requires
            self.wf(),
        ensures
            forall|i: int| #[trigger] self.live_at(i) ==> 0 <= i < self.spec_len(),
    {
    }

    /// An empty arena.
    pub fn new() -> (r: TombstoneArena<T>)
        ensures
            r.wf(),
            r.spec_len() == 0,
            forall|i: int| !r.live_at(i),
    {
        TombstoneArena { slots: Vec::new(), live: Vec::new() }
    }

    /// The number of slots, tombstoned ones included.
    pub fn len(&self) -> (r: usize)
        requires
            self.wf(),
        ensures
            r == self.spec_len(),
    {
        self.slots.len()
    }

    /// Allocates a fresh slot for `value` and returns its index. Existing
    /// slots are untouched; the new index was never handed out before.
    pub fn add(&mut self, value: T) -> (id: usize)
        requires
            old(self).wf(),
        ensures
            final(self).wf(),
            id == old(self).spec_len(),
            final(self).spec_len() == old(self).spec_len() + 1,
            final(self).live_at(id as int),
            final(self).value_at(id as int) == value,
            forall|j: int|
                0 <= j < old(self).spec_len() ==> final(self).live_at(j) == old(self).live_at(j)
                    && final(self).value_at(j) == old(self).value_at(j),
    {
        let id = self.slots.len();
        self.slots.push(value);
        self.live.push(true);
        id
    }

    /// Direct lookup: the live value at `i`, or nothing for a tombstoned or
    /// out-of-range id.
    pub fn get(&self, i: usize) -> (r: Option<&T>)
        requires
            self.wf(),
        ensures
            self.live_at(i as int) ==> r == Some(&self.value_at(i as int)),
            !self.live_at(i as int) ==> r is None,
    {
        if i < self.live.len() && self.live[i] {
            Some(&self.slots[i])
        } else {
            None
        }
    }

    /// Whether `i` names a live slot.
    pub fn is_live(&self, i: usize) -> (r: bool)
        requires
            self.wf(),
        ensures
            r == self.live_at(i as int),
    {
        i < self.live.len() && self.live[i]
    }
}

impl<T: Tombstone> TombstoneArena<T> {
    /// Logical delete: the slot stays, its content is replaced through the
    /// clearing hook, and every other slot is untouched.
    pub fn delete(&mut self, i: usize)
        requires
            old(self).wf(),
            old(self).live_at(i as int),
        ensures
            final(self).wf(),
            final(self).spec_len() == old(self).spec_len(),
            !final(self).live_at(i as int),
            forall|j: int|
                0 <= j < final(self).spec_len() && j != i ==> final(self).live_at(j) == old(
                    self,
                ).live_at(j) && final(self).value_at(j) == old(self).value_at(j),
    {
        self.slots[i].on_delete();
        self.live[i] = false;
    }
}

} // verus!
