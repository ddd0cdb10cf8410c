//! The module-wide store of typed local slots.

use vstd::prelude::*;

use crate::arena::{Tombstone, TombstoneArena};
use crate::ids::LocalId;
use crate::ty::ValType;

verus! {

/// A typed slot bound to one function, referenced by id.
#[derive(Debug, Clone)]
pub struct Local {
    id: LocalId,
    ty: ValType,
}

impl Local {
    /// The id this local was created under.
    pub closed spec fn spec_id(&self) -> LocalId {
        self.id
    }

    /// The declared type of this local.
    pub closed spec fn spec_ty(&self) -> ValType {
        self.ty
    }

    /// Get the id of this local.
    pub fn id(&self) -> (r: LocalId)
        ensures
            r == self.spec_id(),
    {
        self.id
    }

    /// Get the type of this local.
    pub fn ty(&self) -> (r: ValType)
        ensures
            r == self.spec_ty(),
    {
        self.ty
    }
}

impl Tombstone for Local {
    fn on_delete(&mut self) {
    }
}

/// The store of locals.
pub struct ModuleLocals {
    arena: TombstoneArena<Local>,
}

impl ModuleLocals {
    /// The declared type of each slot; nothing for a tombstoned slot.
    pub closed spec fn entries(&self) -> Seq<Option<ValType>> {
        Seq::new(
            self.arena.spec_len(),
            |i: int|
                if self.arena.live_at(i) {
                    Some(self.arena.value_at(i).spec_ty())
                } else {
                    None
                },
        )
    }

    /// Well-formed: every live local records the slot it lives in as its id.
    pub closed spec fn wf(&self) -> bool {
        &&& self.arena.wf()
        &&& forall|i: int|
            #[trigger] self.arena.live_at(i) ==> self.arena.value_at(i).spec_id() == (LocalId {
                index: i as usize,
            })
    }

    /// An empty store.
    pub fn new() -> (r: ModuleLocals)
        ensures
            r.wf(),
            r.entries() == Seq::<Option<ValType>>::empty(),
    {
        let r = ModuleLocals { arena: TombstoneArena::new() };
        proof {
            assert(r.entries() =~= Seq::<Option<ValType>>::empty());
        }
        r
    }

    /// The number of slots ever allocated, tombstoned ones included.
    pub fn len(&self) -> (r: usize)
        requires
            self.wf(),
        ensures
            r == self.entries().len(),
    {
        self.arena.len()
    }

    /// Allocates a fresh local of the given type and returns its id.
    pub fn add(&mut self, ty: ValType) -> (id: LocalId)
        requires
            old(self).wf(),
        ensures
            final(self).wf(),
            id.index == old(self).entries().len(),
            final(self).entries() == old(self).entries().push(Some(ty)),
    {
        let index = self.arena.len();
        let id = LocalId { index };
        let slot = self.arena.add(Local { id, ty });
        proof {
            self.arena.lemma_live_in_range();
            old(self).arena.lemma_live_in_range();
            assert forall|i: int| #[trigger] self.arena.live_at(i) implies self.arena.value_at(
                i,
            ).spec_id() == (LocalId { index: i as usize }) by {
                if i != index as int {
                    assert(old(self).arena.live_at(i));
                }
            }
            assert(self.entries() =~= old(self).entries().push(Some(ty)));
        }
        id
    }

    /// The live local with the given id, or nothing for a tombstoned or
    /// out-of-range id.
    pub fn get(&self, id: LocalId) -> (r: Option<&Local>)
        requires
            self.wf(),
        ensures
            match r {
                Some(l) => id.index < self.entries().len() && self.entries()[id.index as int]
                    == Some(l.spec_ty()) && l.spec_id() == id,
                None => id.index >= self.entries().len() || self.entries()[id.index as int]
                    is None,
            },
    {
        proof {
            self.arena.lemma_live_in_range();
        }
        self.arena.get(id.index)
    }

    /// Logically deletes a local; the id stays valid as a tombstoned slot.
    pub fn delete(&mut self, id: LocalId)
        requires
            old(self).wf(),
            id.index < old(self).entries().len(),
            old(self).entries()[id.index as int] is Some,
        ensures
            final(self).wf(),
            final(self).entries() == old(self).entries().update(id.index as int, None),
    {
        proof {
            old(self).arena.lemma_live_in_range();
        }
        self.arena.delete(id.index);
        proof {
            self.arena.lemma_live_in_range();
            assert forall|i: int| #[trigger] self.arena.live_at(i) implies self.arena.value_at(
                i,
            ).spec_id() == (LocalId { index: i as usize }) by {
                assert(i != id.index as int);
                assert(old(self).arena.live_at(i));
            }
            assert(self.entries() =~= old(self).entries().update(id.index as int, None));
        }
    }
}

} // verus!
