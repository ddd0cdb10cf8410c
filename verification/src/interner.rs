//! The type interner: deduplicated function signatures over the tombstone
//! arena.
//!
//! The interner never holds two live entries that are structurally equal but
//! carry different ids, and every live entry's recorded id is the slot it
//! lives in.

use vstd::prelude::*;
use vstd::slice::slice_to_vec;

use crate::arena::{Tombstone, TombstoneArena};
use crate::error::Error;
use crate::ids::TypeId;
use crate::ty::{Type, TypeKey, ValType};

verus! {

impl Tombstone for Type {
    fn on_delete(&mut self) {
        self.clear();
    }
}

/// Whether some live entry of `s` holds the key `k`.
pub open spec fn has_key(s: Seq<Option<TypeKey>>, k: TypeKey) -> bool {
    exists|i: int| 0 <= i < s.len() && s[i] == Some(k)
}

/// The first index of `s` holding the key `k` (meaningful only when
/// `has_key(s, k)`).
pub open spec fn first_key_index(s: Seq<Option<TypeKey>>, k: TypeKey) -> int
    decreases s.len(),
{
    if s.len() == 0 {
        0
    } else if s[0] == Some(k) {
        0
    } else {
        1 + first_key_index(s.drop_first(), k)
    }
}

/// When `k` occurs in `s`, `first_key_index` names its first occurrence.
pub proof fn lemma_first_key_index(s: Seq<Option<TypeKey>>, k: TypeKey)
    requires
        has_key(s, k),
    ensures
        0 <= first_key_index(s, k) < s.len(),
        s[first_key_index(s, k)] == Some(k),
        forall|j: int| 0 <= j < first_key_index(s, k) ==> s[j] != Some(k),
    decreases s.len(),
{
    if s[0] == Some(k) {
    } else {
        let w = choose|i: int| 0 <= i < s.len() && s[i] == Some(k);
        assert(s.drop_first()[w - 1] == s[w]);
        assert(has_key(s.drop_first(), k));
        lemma_first_key_index(s.drop_first(), k);
        let f = first_key_index(s.drop_first(), k);
        assert(s[1 + f] == s.drop_first()[f]);
        assert forall|j: int| 0 <= j < 1 + f implies s[j] != Some(k) by {
            if j > 0 {
                assert(s[j] == s.drop_first()[j - 1]);
            }
        }
    }
}

/// The first occurrence is the only index with nothing equal before it.
pub proof fn lemma_first_key_index_unique(s: Seq<Option<TypeKey>>, k: TypeKey, i: int)
    requires
        0 <= i < s.len(),
        s[i] == Some(k),
        forall|j: int| 0 <= j < i ==> s[j] != Some(k),
    ensures
        i == first_key_index(s, k),
    decreases s.len(),
{
    if s[0] == Some(k) {
        assert(i == 0);
    } else {
        assert(s.drop_first()[i - 1] == s[i]);
        assert forall|j: int| 0 <= j < i - 1 implies s.drop_first()[j] != Some(k) by {
            assert(s.drop_first()[j] == s[j + 1]);
        }
        lemma_first_key_index_unique(s.drop_first(), k, i - 1);
    }
}

/// What interning does, stated over the store's structural content: an
/// already-present key leaves the store unchanged and returns the id of its
/// first live occurrence; a new key is appended under the next fresh id.
pub open spec fn spec_intern(s: Seq<Option<TypeKey>>, k: TypeKey) -> (Seq<Option<TypeKey>>, int) {
    if has_key(s, k) {
        (s, first_key_index(s, k))
    } else {
        (s.push(Some(k)), s.len() as int)
    }
}

/// Interning idempotence: interning a key a second time returns the same id
/// as the first call and leaves the store exactly as the first call left it,
/// and that id names a live entry holding exactly the interned key.
pub proof fn lemma_intern_idempotent(s: Seq<Option<TypeKey>>, k: TypeKey)
    ensures
        spec_intern(spec_intern(s, k).0, k).0 == spec_intern(s, k).0,
        spec_intern(spec_intern(s, k).0, k).1 == spec_intern(s, k).1,
        0 <= spec_intern(s, k).1 < spec_intern(s, k).0.len(),
        spec_intern(s, k).0[spec_intern(s, k).1] == Some(k),
{
    if has_key(s, k) {
        lemma_first_key_index(s, k);
    } else {
        let s1 = s.push(Some(k));
        assert(s1[s.len() as int] == Some(k));
        assert(has_key(s1, k));
        assert forall|j: int| 0 <= j < s.len() implies s1[j] != Some(k) by {
            assert(s1[j] == s[j]);
        }
        lemma_first_key_index_unique(s1, k, s.len() as int);
    }
}

/// The deduplicating store of function types.
pub struct ModuleTypes {
    arena: TombstoneArena<Type>,
}

impl ModuleTypes {
    /// The structural content of each slot: the key of a live type, nothing
    /// for a tombstoned slot.
    pub closed spec fn entries(&self) -> Seq<Option<TypeKey>> {
        Seq::new(
            self.arena.spec_len(),
            |i: int|
                if self.arena.live_at(i) {
                    Some(self.arena.value_at(i).key())
                } else {
                    None
                },
        )
    }

    /// Well-formed: every live type records the slot it lives in as its id,
    /// and no two live types are structurally equal.
    pub closed spec fn wf(&self) -> bool {
        &&& self.arena.wf()
        &&& forall|i: int|
            #[trigger] self.arena.live_at(i) ==> self.arena.value_at(i).spec_id() == (TypeId {
                index: i as usize,
            })
        &&& forall|i: int, j: int|
            self.arena.live_at(i) && self.arena.live_at(j) && i != j
                ==> #[trigger] self.arena.value_at(i).key() != #[trigger] self.arena.value_at(
                j,
            ).key()
    }

    /// An empty store.
    pub fn new() -> (r: ModuleTypes)
        ensures
            r.wf(),
            r.entries() == Seq::<Option<TypeKey>>::empty(),
    {
        let r = ModuleTypes { arena: TombstoneArena::new() };
        proof {
            assert(r.entries() =~= Seq::<Option<TypeKey>>::empty());
            r.arena.lemma_live_in_range();
        }
        r
    }

    /// The number of slots ever allocated, tombstoned ones included.
    pub fn len(&self) -> (r: usize)
        requires
            self.wf(),
        ensures
            r == self.entries().len(),
    {
        self.arena.len()
    }

    /// The live type in slot `i`, or nothing for a tombstoned or
    /// out-of-range slot. This is the iteration surface: walking `0..len()`
    /// and skipping the empty answers visits exactly the live types.
    pub fn get_at(&self, i: usize) -> (r: Option<&Type>)
        requires
            self.wf(),
        ensures
            match r {
                Some(t) => i < self.entries().len() && self.entries()[i as int] == Some(t.key())
                    && t.spec_id() == (TypeId { index: i }),
                None => i >= self.entries().len() || self.entries()[i as int] is None,
            },
    {
        proof {
            self.arena.lemma_live_in_range();
        }
        self.arena.get(i)
    }

    /// Looks a type up by id; an out-of-range or tombstoned id is a defined
    /// error, never undefined behavior.
    pub fn lookup(&self, id: TypeId) -> (r: Result<&Type, Error>)
        requires
            self.wf(),
        ensures
            match r {
                Ok(t) => id.index < self.entries().len() && self.entries()[id.index as int]
                    == Some(t.key()) && t.spec_id() == id,
                Err(e) => e == Error::BuilderMisuse && (id.index >= self.entries().len()
                    || self.entries()[id.index as int] is None),
            },
    {
        proof {
            self.arena.lemma_live_in_range();
        }
        match self.arena.get(id.index) {
            Some(t) => Ok(t),
            None => Err(Error::BuilderMisuse),
        }
    }

    /// Returns the existing id if a structurally equal function type already
    /// lives in the store, else creates a new entry — deterministically, per
    /// `spec_intern`.
    pub fn intern(&mut self, params: &[ValType], results: &[ValType]) -> (id: TypeId)
        requires
            old(self).wf(),
        ensures
            final(self).wf(),
            ({
                let k = TypeKey {
                    params: params@,
                    results: results@,
                    is_for_function_entry: false,
                };
                final(self).entries() == spec_intern(old(self).entries(), k).0
                    && id.index as int == spec_intern(old(self).entries(), k).1 && id.index
                    < final(self).entries().len() && final(self).entries()[id.index as int]
                    == Some(k)
            }),
    {
        self.intern_key(params, results, false)
    }

    /// Interns the uniform signature of a function entry block: no
    /// parameters, internal-only flag set, so the encoder can leave it out of
    /// the type section.
    pub fn intern_for_function_entry(&mut self, results: &[ValType]) -> (id: TypeId)
        requires
            old(self).wf(),
        ensures
            final(self).wf(),
            ({
                let k = TypeKey {
                    params: Seq::<ValType>::empty(),
                    results: results@,
                    is_for_function_entry: true,
                };
                final(self).entries() == spec_intern(old(self).entries(), k).0
                    && id.index as int == spec_intern(old(self).entries(), k).1 && id.index
                    < final(self).entries().len() && final(self).entries()[id.index as int]
                    == Some(k)
            }),
    {
        let empty: Vec<ValType> = Vec::new();
        assert(empty@ =~= Seq::<ValType>::empty());
        self.intern_key(empty.as_slice(), results, true)
    }

    /// Logically deletes a type: the slot is tombstoned and its content
    /// cleared, every other entry is untouched, and the id is never reused.
    pub fn delete(&mut self, id: TypeId)
        requires
            old(self).wf(),
            id.index < old(self).entries().len(),
            old(self).entries()[id.index as int] is Some,
        ensures
            final(self).wf(),
            final(self).entries() == old(self).entries().update(id.index as int, None),
    {
        proof {
            old(self).arena.lemma_live_in_range();
            assert(old(self).arena.live_at(id.index as int));
        }
        self.arena.delete(id.index);
        proof {
            self.arena.lemma_live_in_range();
            assert forall|i: int| #[trigger] self.arena.live_at(i) implies self.arena.value_at(
                i,
            ).spec_id() == (TypeId { index: i as usize }) by {
                assert(i != id.index as int);
                assert(old(self).arena.live_at(i));
            }
            assert forall|ii: int, jj: int|
                self.arena.live_at(ii) && self.arena.live_at(jj) && ii != jj
                    implies #[trigger] self.arena.value_at(ii).key()
                    != #[trigger] self.arena.value_at(jj).key() by {
                assert(ii != id.index as int && jj != id.index as int);
                assert(old(self).arena.live_at(ii) && old(self).arena.live_at(jj));
            }
            assert(self.entries() =~= old(self).entries().update(id.index as int, None));
        }
    }

    fn intern_key(&mut self, params: &[ValType], results: &[ValType], entry_flag: bool) -> (id:
        TypeId)
        requires
            old(self).wf(),
            entry_flag ==> params@ == Seq::<ValType>::empty(),
        ensures
            final(self).wf(),
            ({
                let k = TypeKey {
                    params: params@,
                    results: results@,
                    is_for_function_entry: entry_flag,
                };
                final(self).entries() == spec_intern(old(self).entries(), k).0
                    && id.index as int == spec_intern(old(self).entries(), k).1 && id.index
                    < final(self).entries().len() && final(self).entries()[id.index as int]
                    == Some(k)
            }),
    {
        let ghost k = TypeKey {
            params: params@,
            results: results@,
            is_for_function_entry: entry_flag,
        };
        let n = self.arena.len();
        let mut i: usize = 0;
        while i < n
            invariant
                self.wf(),
                self == old(self),
                n == self.entries().len(),
                i <= n,
                k == (TypeKey {
                    params: params@,
                    results: results@,
                    is_for_function_entry: entry_flag,
                }),
                forall|j: int| 0 <= j < i ==> self.entries()[j] != Some(k),
            decreases n - i,
        {
            match self.arena.get(i) {
                Some(t) => {
                    if t.is_for_function_entry() == entry_flag && crate::ty::val_types_equal(
                        t.params(),
                        params,
                    ) && crate::ty::val_types_equal(t.results(), results) {
                        proof {
                            assert(t.key() == k);
                            assert(self.entries()[i as int] == Some(k));
                            assert(has_key(self.entries(), k));
                            lemma_first_key_index_unique(self.entries(), k, i as int);
                        }
                        return t.id();
                    }
                    proof {
                        assert(self.entries()[i as int] == Some(t.key()));
                        assert(t.key() != k);
                    }
                },
                None => {
                    proof {
                        assert(self.entries()[i as int] is None);
                    }
                },
            }
            i += 1;
        }
        proof {
            assert(!has_key(self.entries(), k));
        }
        let id = TypeId { index: n };
        let ty = if entry_flag {
            Type::for_function_entry(id, slice_to_vec(results))
        } else {
            Type::new(id, slice_to_vec(params), slice_to_vec(results))
        };
        proof {
            assert(ty.key() == k);
        }
        let slot = self.arena.add(ty);
        proof {
            assert(slot == n);
            self.arena.lemma_live_in_range();
            old(self).arena.lemma_live_in_range();
            assert forall|i: int| #[trigger] self.arena.live_at(i) implies self.arena.value_at(
                i,
            ).spec_id() == (TypeId { index: i as usize }) by {
                if i != n as int {
                    assert(old(self).arena.live_at(i));
                    assert(self.arena.value_at(i) == old(self).arena.value_at(i));
                }
            }
            assert forall|ii: int, jj: int|
                self.arena.live_at(ii) && self.arena.live_at(jj) && ii != jj
                    implies #[trigger] self.arena.value_at(ii).key()
                    != #[trigger] self.arena.value_at(jj).key() by {
                if ii == n as int {
                    assert(jj != n as int && 0 <= jj < n as int + 1);
                    assert(old(self).arena.live_at(jj));
                    assert(self.arena.value_at(jj) == old(self).arena.value_at(jj));
                    assert(old(self).entries()[jj] == Some(self.arena.value_at(jj).key()));
                    assert(old(self).entries()[jj] != Some(k));
                    assert(self.arena.value_at(ii).key() == k);
                } else if jj == n as int {
                    assert(ii != n as int && 0 <= ii < n as int + 1);
                    assert(old(self).arena.live_at(ii));
                    assert(self.arena.value_at(ii) == old(self).arena.value_at(ii));
                    assert(old(self).entries()[ii] == Some(self.arena.value_at(ii).key()));
                    assert(old(self).entries()[ii] != Some(k));
                    assert(self.arena.value_at(jj).key() == k);
                } else {
                    assert(old(self).arena.live_at(ii) && old(self).arena.live_at(jj));
                    assert(self.arena.value_at(ii) == old(self).arena.value_at(ii));
                    assert(self.arena.value_at(jj) == old(self).arena.value_at(jj));
                }
            }
            assert(self.entries() =~= old(self).entries().push(Some(k)));
        }
        id
    }
}

} // verus!
