//! The structured instruction-sequence builder.
//!
//! A client assembles a function body as a graph of sequences addressed by
//! stable ids. Branches name their target sequence, never a relative depth;
//! nesting is resolved once, at encode time. A dangling sequence becomes part
//! of the control-flow tree only when a Block or Loop instruction in another
//! sequence references its id, and `finish` verifies that every dangling
//! sequence was attached exactly once before the function is inserted.

use vstd::prelude::*;
use vstd::slice::slice_to_vec;

use crate::error::Error;
use crate::function::{Function, FunctionV, ModuleFunctions};
use crate::ids::{FunctionId, GlobalId, InstrSeqId, LocalId, TableId, TypeId};
use crate::interner::{spec_intern, ModuleTypes};
use crate::ir::{BinaryOp, Instr, InstrSeq, InstrSeqV};
use crate::ty::{HeapType, RefType, TypeKey, ValType};

verus! {

/// Whether `i` structurally nests the sequence `t` (as a Block or Loop
/// body).
pub open spec fn is_nest_ref(i: Instr, t: int) -> bool {
    match i {
        Instr::Block { seq } => seq.index == t,
        Instr::Loop { seq } => seq.index == t,
        _ => false,
    }
}

/// Whether every sequence id mentioned by `i` lies below `n`.
pub open spec fn instr_targets_ok(i: Instr, n: int) -> bool {
    match i {
        Instr::Block { seq } => seq.index < n,
        Instr::Loop { seq } => seq.index < n,
        Instr::Br { seq } => seq.index < n,
        Instr::BrIf { seq } => seq.index < n,
        Instr::BrOnCast { seq, .. } => seq.index < n,
        Instr::BrOnCastFail { seq, .. } => seq.index < n,
        _ => true,
    }
}

/// How many instructions of `instrs` nest the sequence `t`.
pub open spec fn refs_in_instrs(instrs: Seq<Instr>, t: int) -> nat
    decreases instrs.len(),
{
    if instrs.len() == 0 {
        0
    } else {
        refs_in_instrs(instrs.drop_last(), t) + if is_nest_ref(instrs.last(), t) {
            1nat
        } else {
            0nat
        }
    }
}

/// How many instructions across all of `seqs` nest the sequence `t`.
pub open spec fn refs_in_seqs(seqs: Seq<InstrSeqV>, t: int) -> nat
    decreases seqs.len(),
{
    if seqs.len() == 0 {
        0
    } else {
        refs_in_seqs(seqs.drop_last(), t) + refs_in_instrs(seqs.last().instrs, t)
    }
}

/// Whether every mentioned sequence id exists.
pub open spec fn targets_valid(seqs: Seq<InstrSeqV>) -> bool {
    forall|j: int, k: int|
        0 <= j < seqs.len() && 0 <= k < seqs[j].instrs.len() ==> instr_targets_ok(
            #[trigger] seqs[j].instrs[k],
            seqs.len() as int,
        )
}

/// The control-flow tree is attachable: every mentioned sequence exists, the
/// entry is nested nowhere, and every other sequence is nested exactly once.
pub open spec fn spec_attachable(seqs: Seq<InstrSeqV>) -> bool {
    &&& targets_valid(seqs)
    &&& refs_in_seqs(seqs, 0) == 0
    &&& forall|t: int| 1 <= t < seqs.len() ==> refs_in_seqs(seqs, t) == 1
}

/// A count capped at two: enough to tell "none", "exactly once" and "more
/// than once" apart.
pub open spec fn capped(n: nat) -> nat {
    if n >= 2 {
        2
    } else {
        n
    }
}

/// The structural content of a builder.
pub struct BuilderV {
    /// The interned id of the signature the function will carry.
    pub ty: TypeId,
    /// Parameter types, in order.
    pub params: Seq<ValType>,
    /// Result types, in order.
    pub results: Seq<ValType>,
    /// Every sequence allocated so far; the first one is the entry.
    pub seqs: Seq<InstrSeqV>,
}

/// Appending one instruction to the sequence `i` of a builder.
pub open spec fn spec_append_instr(b: BuilderV, i: int, instr: Instr) -> BuilderV {
    BuilderV {
        seqs: b.seqs.update(
            i,
            InstrSeqV { instrs: b.seqs[i].instrs.push(instr), results: b.seqs[i].results },
        ),
        ..b
    }
}

/// Builds a function body without manual jump-target or byte-offset
/// bookkeeping.
pub struct FunctionBuilder {
    ty: TypeId,
    params: Vec<ValType>,
    results: Vec<ValType>,
    seqs: Vec<InstrSeq>,
}

impl View for FunctionBuilder {
    type V = BuilderV;

    closed spec fn view(&self) -> BuilderV {
        BuilderV {
            ty: self.ty,
            params: self.params@,
            results: self.results@,
            seqs: self.seqs@.map_values(|s: InstrSeq| s@),
        }
    }
}

impl FunctionBuilder {
    /// A builder always owns at least its entry sequence.
    pub open spec fn wf(&self) -> bool {
        self@.seqs.len() >= 1
    }

    /// Opens a builder bound to the shared type store: interns the
    /// function's signature and the uniform entry-block signature, and
    /// allocates the implicit entry sequence.
    pub fn new(types: &mut ModuleTypes, params: &[ValType], results: &[ValType]) -> (r:
        FunctionBuilder)
        requires
            old(types).wf(),
        ensures
            final(types).wf(),
            r.wf(),
            ({
                let k = TypeKey { params: params@, results: results@, is_for_function_entry: false };
                let ke = TypeKey {
                    params: Seq::<ValType>::empty(),
                    results: results@,
                    is_for_function_entry: true,
                };
                let mid = spec_intern(old(types).entries(), k);
                let fin = spec_intern(mid.0, ke);
                final(types).entries() == fin.0 && r@.ty.index as int == mid.1
            }),
            r@.params == params@,
            r@.results == results@,
            r@.seqs == seq![InstrSeqV { instrs: Seq::<Instr>::empty(), results: results@ }],
    {
        let ty = types.intern(params, results);
        // The uniform entry-block signature is interned alongside, flagged
        // so the encoder leaves it out of the type section.
        let _ = types.intern_for_function_entry(results);
        let entry = InstrSeq { instrs: Vec::new(), results: slice_to_vec(results) };
        let mut seqs: Vec<InstrSeq> = Vec::new();
        seqs.push(entry);
        let r = FunctionBuilder {
            ty,
            params: slice_to_vec(params),
            results: slice_to_vec(results),
            seqs,
        };
        proof {
            assert(r@.seqs =~= seq![
                InstrSeqV { instrs: Seq::<Instr>::empty(), results: results@ },
            ]);
        }
        r
    }

    /// The id of the function's implicit entry sequence.
    pub fn func_body(&self) -> (r: InstrSeqId)
        ensures
            r.index == 0,
    {
        InstrSeqId { index: 0 }
    }

    /// Allocates a standalone sequence, not yet attached to any parent, with
    /// the given declared result type. The caller keeps the id both to fill
    /// the sequence and to reference it later from a Block, Loop or branch.
    pub fn dangling_instr_seq(&mut self, result: Option<ValType>) -> (r: InstrSeqId)
        ensures
            final(self).wf(),
            r.index == old(self)@.seqs.len(),
            final(self)@ == (BuilderV {
                seqs: old(self)@.seqs.push(
                    InstrSeqV {
                        instrs: Seq::<Instr>::empty(),
                        results: match result {
                            Some(t) => seq![t],
                            None => Seq::<ValType>::empty(),
                        },
                    },
                ),
                ..old(self)@
            }),
    {
        let r = InstrSeqId { index: self.seqs.len() };
        let mut results: Vec<ValType> = Vec::new();
        match result {
            Some(t) => {
                results.push(t);
                proof {
                    assert(results@ =~= seq![t]);
                }
            },
            None => {
                proof {
                    assert(results@ =~= Seq::<ValType>::empty());
                }
            },
        }
        self.seqs.push(InstrSeq { instrs: Vec::new(), results });
        proof {
            assert(final(self)@.seqs =~= old(self)@.seqs.push(
                InstrSeqV {
                    instrs: Seq::<Instr>::empty(),
                    results: match result {
                        Some(t) => seq![t],
                        None => Seq::<ValType>::empty(),
                    },
                },
            ));
        }
        r
    }

    /// Appends one instruction to the targeted sequence.
    pub fn instr(&mut self, seq: InstrSeqId, instr: Instr)
        requires
            seq.index < old(self)@.seqs.len(),
        ensures
            final(self)@ == spec_append_instr(old(self)@, seq.index as int, instr),
            final(self).wf() == old(self).wf(),
    {
        let s = &mut self.seqs[seq.index];
        s.instrs.push(instr);
        proof {
            assert(final(self)@.seqs =~= spec_append_instr(
                old(self)@,
                seq.index as int,
                instr,
            ).seqs);
        }
    }

    /// Appends a block whose body is the referenced sequence.
    pub fn block(&mut self, seq: InstrSeqId, body: InstrSeqId)
        requires
            seq.index < old(self)@.seqs.len(),
        ensures
            final(self)@ == spec_append_instr(
                old(self)@,
                seq.index as int,
                Instr::Block { seq: body },
            ),
            final(self).wf() == old(self).wf(),
    {
        self.instr(seq, Instr::Block { seq: body });
    }

    /// Appends a loop whose body is the referenced sequence.
    pub fn loop_(&mut self, seq: InstrSeqId, body: InstrSeqId)
        requires
            seq.index < old(self)@.seqs.len(),
        ensures
            final(self)@ == spec_append_instr(
                old(self)@,
                seq.index as int,
                Instr::Loop { seq: body },
            ),
            final(self).wf() == old(self).wf(),
    {
        self.instr(seq, Instr::Loop { seq: body });
    }

    /// Appends an unconditional branch to the target sequence.
    pub fn br(&mut self, seq: InstrSeqId, target: InstrSeqId)
        requires
            seq.index < old(self)@.seqs.len(),
        ensures
            final(self)@ == spec_append_instr(
                old(self)@,
                seq.index as int,
                Instr::Br { seq: target },
            ),
            final(self).wf() == old(self).wf(),
    {
        self.instr(seq, Instr::Br { seq: target });
    }

    /// Appends a conditional branch to the target sequence.
    pub fn br_if(&mut self, seq: InstrSeqId, target: InstrSeqId)
        requires
            seq.index < old(self)@.seqs.len(),
        ensures
            final(self)@ == spec_append_instr(
                old(self)@,
                seq.index as int,
                Instr::BrIf { seq: target },
            ),
            final(self).wf() == old(self).wf(),
    {
        self.instr(seq, Instr::BrIf { seq: target });
    }

    /// Appends a read of a local.
    pub fn local_get(&mut self, seq: InstrSeqId, local: LocalId)
        requires
            seq.index < old(self)@.seqs.len(),
        ensures
            final(self)@ == spec_append_instr(
                old(self)@,
                seq.index as int,
                Instr::LocalGet { local },
            ),
            final(self).wf() == old(self).wf(),
    {
        self.instr(seq, Instr::LocalGet { local });
    }

    /// Appends a write of a local.
    pub fn local_set(&mut self, seq: InstrSeqId, local: LocalId)
        requires
            seq.index < old(self)@.seqs.len(),
        ensures
            final(self)@ == spec_append_instr(
                old(self)@,
                seq.index as int,
                Instr::LocalSet { local },
            ),
            final(self).wf() == old(self).wf(),
    {
        self.instr(seq, Instr::LocalSet { local });
    }

    /// Appends a read of a global.
    pub fn global_get(&mut self, seq: InstrSeqId, global: GlobalId)
        requires
            seq.index < old(self)@.seqs.len(),
        ensures
            final(self)@ == spec_append_instr(
                old(self)@,
                seq.index as int,
                Instr::GlobalGet { global },
            ),
            final(self).wf() == old(self).wf(),
    {
        self.instr(seq, Instr::GlobalGet { global });
    }

    /// Appends a write of a global.
    pub fn global_set(&mut self, seq: InstrSeqId, global: GlobalId)
        requires
            seq.index < old(self)@.seqs.len(),
        ensures
            final(self)@ == spec_append_instr(
                old(self)@,
                seq.index as int,
                Instr::GlobalSet { global },
            ),
            final(self).wf() == old(self).wf(),
    {
        self.instr(seq, Instr::GlobalSet { global });
    }

    /// Appends a read of a table element.
    pub fn table_get(&mut self, seq: InstrSeqId, table: TableId)
        requires
            seq.index < old(self)@.seqs.len(),
        ensures
            final(self)@ == spec_append_instr(
                old(self)@,
                seq.index as int,
                Instr::TableGet { table },
            ),
            final(self).wf() == old(self).wf(),
    {
        self.instr(seq, Instr::TableGet { table });
    }

    /// Appends a write of a table element.
    pub fn table_set(&mut self, seq: InstrSeqId, table: TableId)
        requires
            seq.index < old(self)@.seqs.len(),
        ensures
            final(self)@ == spec_append_instr(
                old(self)@,
                seq.index as int,
                Instr::TableSet { table },
            ),
            final(self).wf() == old(self).wf(),
    {
        self.instr(seq, Instr::TableSet { table });
    }

    /// Appends a 32-bit integer constant.
    pub fn i32_const(&mut self, seq: InstrSeqId, value: i32)
        requires
            seq.index < old(self)@.seqs.len(),
        ensures
            final(self)@ == spec_append_instr(
                old(self)@,
                seq.index as int,
                Instr::I32Const { value },
            ),
            final(self).wf() == old(self).wf(),
    {
        self.instr(seq, Instr::I32Const { value });
    }

    /// Appends a binary numeric operator.
    pub fn binop(&mut self, seq: InstrSeqId, op: BinaryOp)
        requires
            seq.index < old(self)@.seqs.len(),
        ensures
            final(self)@ == spec_append_instr(old(self)@, seq.index as int, Instr::Binop { op }),
            final(self).wf() == old(self).wf(),
    {
        self.instr(seq, Instr::Binop { op });
    }

    /// Appends a drop of the top of the stack.
    pub fn drop(&mut self, seq: InstrSeqId)
        requires
            seq.index < old(self)@.seqs.len(),
        ensures
            final(self)@ == spec_append_instr(old(self)@, seq.index as int, Instr::Drop),
            final(self).wf() == old(self).wf(),
    {
        self.instr(seq, Instr::Drop);
    }

    /// Appends a return from the function.
    pub fn return_(&mut self, seq: InstrSeqId)
        requires
            seq.index < old(self)@.seqs.len(),
        ensures
            final(self)@ == spec_append_instr(old(self)@, seq.index as int, Instr::Return),
            final(self).wf() == old(self).wf(),
    {
        self.instr(seq, Instr::Return);
    }

    /// Appends a null reference of the given type.
    pub fn ref_null(&mut self, seq: InstrSeqId, ty: RefType)
        requires
            seq.index < old(self)@.seqs.len(),
        ensures
            final(self)@ == spec_append_instr(old(self)@, seq.index as int, Instr::RefNull { ty }),
            final(self).wf() == old(self).wf(),
    {
        self.instr(seq, Instr::RefNull { ty });
    }

    /// Appends a wrap of a 32-bit integer into an `i31` reference.
    pub fn ref_i31(&mut self, seq: InstrSeqId)
        requires
            seq.index < old(self)@.seqs.len(),
        ensures
            final(self)@ == spec_append_instr(old(self)@, seq.index as int, Instr::RefI31),
            final(self).wf() == old(self).wf(),
    {
        self.instr(seq, Instr::RefI31);
    }

    /// Appends a signed extraction from an `i31` reference.
    pub fn i31_get_s(&mut self, seq: InstrSeqId)
        requires
            seq.index < old(self)@.seqs.len(),
        ensures
            final(self)@ == spec_append_instr(old(self)@, seq.index as int, Instr::I31GetS),
            final(self).wf() == old(self).wf(),
    {
        self.instr(seq, Instr::I31GetS);
    }

    /// Appends an unsigned extraction from an `i31` reference.
    pub fn i31_get_u(&mut self, seq: InstrSeqId)
        requires
            seq.index < old(self)@.seqs.len(),
        ensures
            final(self)@ == spec_append_instr(old(self)@, seq.index as int, Instr::I31GetU),
            final(self).wf() == old(self).wf(),
    {
        self.instr(seq, Instr::I31GetU);
    }

    /// Appends a reference test against the destination type given as
    /// nullability and heap type.
    pub fn ref_test(&mut self, seq: InstrSeqId, nullable: bool, heap: HeapType)
        requires
            seq.index < old(self)@.seqs.len(),
        ensures
            final(self)@ == spec_append_instr(
                old(self)@,
                seq.index as int,
                Instr::RefTest { nullable, heap },
            ),
            final(self).wf() == old(self).wf(),
    {
        self.instr(seq, Instr::RefTest { nullable, heap });
    }

    /// Appends a reference cast to the destination type given as nullability
    /// and heap type; the declared result type is exactly that destination.
    pub fn ref_cast(&mut self, seq: InstrSeqId, nullable: bool, heap: HeapType)
        requires
            seq.index < old(self)@.seqs.len(),
        ensures
            final(self)@ == spec_append_instr(
                old(self)@,
                seq.index as int,
                Instr::RefCast { nullable, heap },
            ),
            (Instr::RefCast { nullable, heap }).spec_cast_result() == Some(
                RefType { nullable, heap_type: heap },
            ),
            final(self).wf() == old(self).wf(),
    {
        self.instr(seq, Instr::RefCast { nullable, heap });
    }

    /// Appends a branch-on-successful-cast to the target sequence; the
    /// branch edge carries exactly the destination type, the fallthrough
    /// keeps the source type.
    pub fn br_on_cast(
        &mut self,
        seq: InstrSeqId,
        target: InstrSeqId,
        from_nullable: bool,
        from_heap: HeapType,
        to_nullable: bool,
        to_heap: HeapType,
    )
        requires
            seq.index < old(self)@.seqs.len(),
        ensures
            final(self)@ == spec_append_instr(
                old(self)@,
                seq.index as int,
                Instr::BrOnCast { seq: target, from_nullable, from_heap, to_nullable, to_heap },
            ),
            (Instr::BrOnCast {
                seq: target,
                from_nullable,
                from_heap,
                to_nullable,
                to_heap,
            }).spec_branch_carried() == Some(
                RefType { nullable: to_nullable, heap_type: to_heap },
            ),
            (Instr::BrOnCast {
                seq: target,
                from_nullable,
                from_heap,
                to_nullable,
                to_heap,
            }).spec_fallthrough_carried() == Some(
                RefType { nullable: from_nullable, heap_type: from_heap },
            ),
            final(self).wf() == old(self).wf(),
    {
        self.instr(
            seq,
            Instr::BrOnCast { seq: target, from_nullable, from_heap, to_nullable, to_heap },
        );
    }

    /// Appends a branch-on-failed-cast to the target sequence; the branch
    /// edge keeps the source type, the fallthrough carries exactly the
    /// destination type.
    pub fn br_on_cast_fail(
        &mut self,
        seq: InstrSeqId,
        target: InstrSeqId,
        from_nullable: bool,
        from_heap: HeapType,
        to_nullable: bool,
        to_heap: HeapType,
    )
        requires
            seq.index < old(self)@.seqs.len(),
        ensures
            final(self)@ == spec_append_instr(
                old(self)@,
                seq.index as int,
                Instr::BrOnCastFail { seq: target, from_nullable, from_heap, to_nullable, to_heap },
            ),
            (Instr::BrOnCastFail {
                seq: target,
                from_nullable,
                from_heap,
                to_nullable,
                to_heap,
            }).spec_branch_carried() == Some(
                RefType { nullable: from_nullable, heap_type: from_heap },
            ),
            (Instr::BrOnCastFail {
                seq: target,
                from_nullable,
                from_heap,
                to_nullable,
                to_heap,
            }).spec_fallthrough_carried() == Some(
                RefType { nullable: to_nullable, heap_type: to_heap },
            ),
            final(self).wf() == old(self).wf(),
    {
        self.instr(
            seq,
            Instr::BrOnCastFail { seq: target, from_nullable, from_heap, to_nullable, to_heap },
        );
    }

    /// Appends a conversion of an external reference to an internal one.
    pub fn any_convert_extern(&mut self, seq: InstrSeqId)
        requires
            seq.index < old(self)@.seqs.len(),
        ensures
            final(self)@ == spec_append_instr(
                old(self)@,
                seq.index as int,
                Instr::AnyConvertExtern,
            ),
            final(self).wf() == old(self).wf(),
    {
        self.instr(seq, Instr::AnyConvertExtern);
    }

    /// Appends a conversion of an internal reference to an external one.
    pub fn extern_convert_any(&mut self, seq: InstrSeqId)
        requires
            seq.index < old(self)@.seqs.len(),
        ensures
            final(self)@ == spec_append_instr(
                old(self)@,
                seq.index as int,
                Instr::ExternConvertAny,
            ),
            final(self).wf() == old(self).wf(),
    {
        self.instr(seq, Instr::ExternConvertAny);
    }

    /// Verifies the control-flow graph — every referenced sequence exists,
    /// the entry is nested nowhere, every dangling sequence was attached
    /// exactly once — and that the entry sequence's declared results match
    /// the function's declared results; then fixes the argument-local list
    /// and inserts the function. Fails without inserting anything otherwise.
    pub fn finish(self, args: Vec<LocalId>, funcs: &mut ModuleFunctions) -> (r: Result<
        FunctionId,
        Error,
    >)
        requires
            old(funcs).wf(),
            self.wf(),
        ensures
            final(funcs).wf(),
            match r {
                Ok(fid) => spec_attachable(self@.seqs) && self@.seqs[0].results == self@.results
                    && fid.index == old(funcs).entries().len() && final(funcs).entries() == old(
                    funcs,
                ).entries().push(
                    Some(
                        FunctionV {
                            ty: self@.ty,
                            params: self@.params,
                            results: self@.results,
                            args: args@,
                            seqs: self@.seqs,
                        },
                    ),
                ),
                Err(e) => e == Error::BuilderMisuse && !(spec_attachable(self@.seqs)
                    && self@.seqs[0].results == self@.results) && final(funcs).entries() == old(
                    funcs,
                ).entries(),
            },
    {
        let ok = self.checks_pass();
        if ok {
            let FunctionBuilder { ty, params, results, seqs } = self;
            let f = Function { ty, params, results, args, seqs };
            let fid = funcs.add(f);
            Ok(fid)
        } else {
            Err(Error::BuilderMisuse)
        }
    }

    /// Whether the sequence graph is attachable and the entry sequence's
    /// declared results match the function's declared results.
    fn checks_pass(&self) -> (r: bool)
        requires
            self.wf(),
        ensures
            r == (spec_attachable(self@.seqs) && self@.seqs[0].results == self@.results),
    {
        let ghost sv = self@.seqs;
        if !crate::ty::val_types_equal(self.seqs[0].results.as_slice(), self.results.as_slice()) {
            proof {
                assert(sv[0].results != self@.results);
            }
            return false;
        }
        if !check_targets(&self.seqs) {
            return false;
        }
        if count_nest_refs(&self.seqs, 0) != 0 {
            return false;
        }
        let n = self.seqs.len();
        let mut t: usize = 1;
        while t < n
            invariant
                1 <= t,
                n == sv.len(),
                sv == self@.seqs,
                self.wf(),
                forall|x: int| 1 <= x < t ==> refs_in_seqs(sv, x) == 1,
            decreases n - t,
        {
            if count_nest_refs(&self.seqs, t) != 1 {
                return false;
            }
            t += 1;
        }
        proof {
            assert(spec_attachable(sv));
        }
        true
    }
}

/// Counts, capped at two, how many Block or Loop instructions across all of
/// `seqs` nest the sequence `t`.
fn count_nest_refs(seqs: &Vec<InstrSeq>, t: usize) -> (r: u8)
    ensures
        r as nat == capped(refs_in_seqs(seqs@.map_values(|s: InstrSeq| s@), t as int)),
{
    let ghost sv = seqs@.map_values(|s: InstrSeq| s@);
    let n = seqs.len();
    let mut c: u8 = 0;
    let mut j: usize = 0;
    proof {
        assert(sv.take(0) =~= Seq::<InstrSeqV>::empty());
    }
    while j < n
        invariant
            n == sv.len(),
            j <= n,
            c <= 2,
            sv == seqs@.map_values(|s: InstrSeq| s@),
            n == seqs@.len(),
            c as nat == capped(refs_in_seqs(sv.take(j as int), t as int)),
        decreases n - j,
    {
        let ghost iv = sv[j as int].instrs;
        let m = seqs[j].instrs.len();
        proof {
            assert(iv == seqs@[j as int]@.instrs);
            assert(iv.take(0) =~= Seq::<Instr>::empty());
        }
        let mut k: usize = 0;
        while k < m
            invariant
                n == sv.len(),
                j < n,
                m == iv.len(),
                k <= m,
                c <= 2,
                sv == seqs@.map_values(|s: InstrSeq| s@),
                n == seqs@.len(),
                iv == sv[j as int].instrs,
                iv == seqs@[j as int]@.instrs,
                c as nat == capped(
                    refs_in_seqs(sv.take(j as int), t as int) + refs_in_instrs(
                        iv.take(k as int),
                        t as int,
                    ),
                ),
            decreases m - k,
        {
            let hit = match seqs[j].instrs[k] {
                Instr::Block { seq } => seq.index == t,
                Instr::Loop { seq } => seq.index == t,
                _ => false,
            };
            proof {
                assert(seqs@[j as int]@.instrs[k as int] == iv[k as int]);
                assert(hit == is_nest_ref(iv[k as int], t as int));
                assert(iv.take(k as int + 1).drop_last() =~= iv.take(k as int));
                assert(iv.take(k as int + 1).last() == iv[k as int]);
                assert(refs_in_instrs(iv.take(k as int + 1), t as int) == refs_in_instrs(
                    iv.take(k as int),
                    t as int,
                ) + if is_nest_ref(iv[k as int], t as int) {
                    1nat
                } else {
                    0nat
                });
            }
            if hit && c < 2 {
                c += 1;
            }
            k += 1;
        }
        proof {
            assert(iv.take(m as int) =~= iv);
            assert(sv.take(j as int + 1).drop_last() =~= sv.take(j as int));
            assert(sv.take(j as int + 1).last() == sv[j as int]);
            assert(refs_in_seqs(sv.take(j as int + 1), t as int) == refs_in_seqs(
                sv.take(j as int),
                t as int,
            ) + refs_in_instrs(iv, t as int));
        }
        j += 1;
    }
    proof {
        assert(sv.take(n as int) =~= sv);
    }
    c
}

/// Checks that every sequence id mentioned anywhere exists.
fn check_targets(seqs: &Vec<InstrSeq>) -> (r: bool)
    ensures
        r == targets_valid(seqs@.map_values(|s: InstrSeq| s@)),
{
    let ghost sv = seqs@.map_values(|s: InstrSeq| s@);
    let n = seqs.len();
    let mut j: usize = 0;
    while j < n
        invariant
            n == sv.len(),
            j <= n,
            sv == seqs@.map_values(|s: InstrSeq| s@),
            n == seqs@.len(),
            forall|j2: int, k2: int|
                0 <= j2 < j && 0 <= k2 < sv[j2].instrs.len() ==> instr_targets_ok(
                    #[trigger] sv[j2].instrs[k2],
                    n as int,
                ),
        decreases n - j,
    {
        let ghost iv = sv[j as int].instrs;
        let m = seqs[j].instrs.len();
        proof {
            assert(iv == seqs@[j as int]@.instrs);
        }
        let mut k: usize = 0;
        while k < m
            invariant
                n == sv.len(),
                j < n,
                m == iv.len(),
                k <= m,
                sv == seqs@.map_values(|s: InstrSeq| s@),
                n == seqs@.len(),
                iv == sv[j as int].instrs,
                iv == seqs@[j as int]@.instrs,
                forall|j2: int, k2: int|
                    0 <= j2 < j && 0 <= k2 < sv[j2].instrs.len() ==> instr_targets_ok(
                        #[trigger] sv[j2].instrs[k2],
                        n as int,
                    ),
                forall|k2: int|
                    0 <= k2 < k ==> instr_targets_ok(#[trigger] sv[j as int].instrs[k2], n as int),
            decreases m - k,
        {
            let ok = match seqs[j].instrs[k] {
                Instr::Block { seq } => seq.index < n,
                Instr::Loop { seq } => seq.index < n,
                Instr::Br { seq } => seq.index < n,
                Instr::BrIf { seq } => seq.index < n,
                Instr::BrOnCast { seq, .. } => seq.index < n,
                Instr::BrOnCastFail { seq, .. } => seq.index < n,
                _ => true,
            };
            proof {
                assert(seqs@[j as int]@.instrs[k as int] == iv[k as int]);
                assert(ok == instr_targets_ok(iv[k as int], n as int));
            }
            if !ok {
                proof {
                    assert(!instr_targets_ok(sv[j as int].instrs[k as int], n as int));
                    assert(!targets_valid(sv));
                }
                return false;
            }
            k += 1;
        }
        j += 1;
    }
    proof {
        assert(targets_valid(sv));
    }
    true
}

} // verus!
