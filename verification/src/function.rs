//! Functions and the function store.

use vstd::prelude::*;

use crate::arena::{Tombstone, TombstoneArena};
use crate::ids::{FunctionId, LocalId, TypeId};
use crate::ir::{InstrSeq, InstrSeqV};
use crate::ty::ValType;

verus! {

/// The structural content of a function.
pub struct FunctionV {
    /// The interned id of the function's signature.
    pub ty: TypeId,
    /// Parameter types, in order.
    pub params: Seq<ValType>,
    /// Result types, in order.
    pub results: Seq<ValType>,
    /// The locals holding the arguments, in order.
    pub args: Seq<LocalId>,
    /// Every instruction sequence of the body; the first one is the entry.
    pub seqs: Seq<InstrSeqV>,
}

/// A finished function: its signature, its argument locals, and its body as
/// an id-indexed set of instruction sequences whose first member is the
/// implicit entry sequence.
#[derive(Debug, Clone)]
pub struct Function {
    /// The interned id of the function's signature.
    pub ty: TypeId,
    /// Parameter types, in order.
    pub params: Vec<ValType>,
    /// Result types, in order.
    pub results: Vec<ValType>,
    /// The locals holding the arguments, in order.
    pub args: Vec<LocalId>,
    /// Every instruction sequence of the body; the first one is the entry.
    pub seqs: Vec<InstrSeq>,
}

impl View for Function {
    type V = FunctionV;

    open spec fn view(&self) -> FunctionV {
        FunctionV {
            ty: self.ty,
            params: self.params@,
            results: self.results@,
            args: self.args@,
            seqs: self.seqs@.map_values(|s: InstrSeq| s@),
        }
    }
}

impl Tombstone for Function {
    fn on_delete(&mut self) {
        self.args = Vec::new();
        self.seqs = Vec::new();
    }
}

/// The store of functions.
pub struct ModuleFunctions {
    arena: TombstoneArena<Function>,
}

impl ModuleFunctions {
    /// The structural content of each slot; nothing for a tombstoned slot.
    pub closed spec fn entries(&self) -> Seq<Option<FunctionV>> {
        Seq::new(
            self.arena.spec_len(),
            |i: int|
                if self.arena.live_at(i) {
                    Some(self.arena.value_at(i)@)
                } else {
                    None
                },
        )
    }

    /// Well-formed storage.
    pub closed spec fn wf(&self) -> bool {
        self.arena.wf()
    }

    /// An empty store.
    pub fn new() -> (r: ModuleFunctions)
        ensures
            r.wf(),
            r.entries() == Seq::<Option<FunctionV>>::empty(),
    {
        let r = ModuleFunctions { arena: TombstoneArena::new() };
        proof {
            assert(r.entries() =~= Seq::<Option<FunctionV>>::empty());
        }
        r
    }

    /// The number of slots ever allocated, tombstoned ones included.
    pub fn len(&self) -> (r: usize)
        requires
            self.wf(),
        ensures
            r == self.entries().len(),
    {
        self.arena.len()
    }

    /// Inserts a finished function and returns its fresh id.
    pub(crate) fn add(&mut self, f: Function) -> (id: FunctionId)
        requires
            old(self).wf(),
        ensures
            final(self).wf(),
            id.index == old(self).entries().len(),
            final(self).entries() == old(self).entries().push(Some(f@)),
    {
        let index = self.arena.len();
        let _ = self.arena.add(f);
        proof {
            self.arena.lemma_live_in_range();
            old(self).arena.lemma_live_in_range();
            assert(self.entries() =~= old(self).entries().push(Some(f@)));
        }
        FunctionId { index }
    }

    /// The live function with the given id, or nothing for a tombstoned or
    /// out-of-range id.
    pub fn get(&self, id: FunctionId) -> (r: Option<&Function>)
        requires
            self.wf(),
        ensures
            match r {
                Some(f) => id.index < self.entries().len() && self.entries()[id.index as int]
                    == Some(f@),
                None => id.index >= self.entries().len() || self.entries()[id.index as int]
                    is None,
            },
    {
        proof {
            self.arena.lemma_live_in_range();
        }
        self.arena.get(id.index)
    }

    /// Logically deletes a function; the id stays valid as a tombstoned
    /// slot.
    pub fn delete(&mut self, id: FunctionId)
        requires
            old(self).wf(),
            id.index < old(self).entries().len(),
            old(self).entries()[id.index as int] is Some,
        ensures
            final(self).wf(),
            final(self).entries() == old(self).entries().update(id.index as int, None),
    {
        proof {
            old(self).arena.lemma_live_in_range();
        }
        self.arena.delete(id.index);
        proof {
            self.arena.lemma_live_in_range();
            assert(self.entries() =~= old(self).entries().update(id.index as int, None));
        }
    }
}

} // verus!
