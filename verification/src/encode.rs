//! Re-encoding the graph into bytes: section layout, index assignment, and
//! the resolution of sequence ids into structured nesting and relative
//! branch depths.

use vstd::prelude::*;

use crate::codec::{abs_heap_code, write_leb_u32, write_leb_u64, write_sleb, write_val_type};
use crate::error::Error;
use crate::function::Function;
use crate::ids::LocalId;
use crate::ir::{BinaryOp, Instr};
use crate::module::{ConstExpr, Module, Value};
use crate::ty::{HeapType, ValType};

verus! {

/// The eight fixed bytes every module starts with: magic and version.
pub open spec fn spec_header() -> Seq<u8> {
    seq![0x00u8, 0x61u8, 0x73u8, 0x6Du8, 0x01u8, 0x00u8, 0x00u8, 0x00u8]
}

/// Appends one section: its id, the size of its content, the content.
fn write_section(out: &mut Vec<u8>, id: u8, content: &Vec<u8>) -> (r: Result<(), Error>)
    ensures
        r is Err ==> r->Err_0 == Error::BuilderMisuse,
        final(out)@.len() >= old(out)@.len(),
        final(out)@.subrange(0, old(out)@.len() as int) == old(out)@,
        r is Ok ==> final(out)@ == old(out)@ + seq![id] + crate::codec::spec_leb_u64(
            content@.len() as nat,
        ) + content@,
        content@.len() <= u32::MAX ==> r is Ok,
{
    if content.len() > u32::MAX as usize {
        proof {
            assert(final(out)@.subrange(0, old(out)@.len() as int) =~= old(out)@);
        }
        return Err(Error::BuilderMisuse);
    }
    out.push(id);
    write_leb_u32(out, content.len() as u32);
    out.extend_from_slice(content.as_slice());
    proof {
        assert(final(out)@ =~= old(out)@ + seq![id] + crate::codec::spec_leb_u64(
            content@.len() as nat,
        ) + content@);
        assert(final(out)@.subrange(0, old(out)@.len() as int) =~= old(out)@);
    }
    Ok(())
}

/// Appends the encoding of a heap type, which must be abstract.
fn write_heap_type(out: &mut Vec<u8>, h: &HeapType) -> (r: Result<(), Error>)
    ensures
        r is Err ==> r->Err_0 == Error::Unimplemented,
{
    match h {
        HeapType::Abstract(a) => {
            out.push(abs_heap_code(*a));
            Ok(())
        },
        HeapType::Concrete(_) => Err(Error::Unimplemented),
    }
}

/// Appends a vector of value types — the count, then each type — in the
/// exact canonical form `spec_val_types_bytes`: the encoding direction of
/// the signature round trip.
fn write_val_types(out: &mut Vec<u8>, tys: &[ValType]) -> (r: Result<(), Error>)
    ensures
        r is Err ==> r->Err_0 == Error::Unimplemented || r->Err_0 == Error::BuilderMisuse,
        r is Ok ==> crate::codec::val_types_encodable(tys@) && final(out)@ == old(out)@
            + crate::codec::spec_val_types_bytes(tys@),
{
    if tys.len() > u32::MAX as usize {
        return Err(Error::BuilderMisuse);
    }
    write_leb_u32(out, tys.len() as u32);
    let n = tys.len();
    let mut i: usize = 0;
    while i < n
        invariant
            n == tys@.len(),
            i <= n,
            out@ == old(out)@ + crate::codec::spec_leb_u64(tys@.len() as nat)
                + crate::codec::spec_val_types_concat(tys@.take(i as int)),
            forall|j: int|
                0 <= j < i ==> crate::codec::val_type_encodable(#[trigger] tys@[j]),
        decreases n - i,
    {
        proof {
            assert(tys@.take(0) =~= Seq::<ValType>::empty());
        }
        match write_val_type(out, &tys[i]) {
            Ok(()) => {},
            Err(e) => {
                return Err(e);
            },
        }
        proof {
            crate::codec::lemma_val_types_concat_snoc(tys@, i as int);
        }
        i += 1;
    }
    proof {
        assert(tys@.take(n as int) =~= tys@);
    }
    Ok(())
}

/// The index of a local in the function's local ordering.
fn local_index(order: &Vec<LocalId>, l: LocalId) -> (r: Option<u32>)
{
    if order.len() > u32::MAX as usize {
        return None;
    }
    let n = order.len();
    let mut i: usize = 0;
    while i < n
        invariant
            i <= n,
            n == order@.len(),
            n <= u32::MAX as usize,
        decreases n - i,
    {
        if order[i].index == l.index {
            return Some(i as u32);
        }
        i += 1;
    }
    None
}

/// The relative depth of the enclosing sequence `target` seen from the
/// innermost end of the label stack.
fn depth_of(stack: &Vec<usize>, target: usize) -> (r: Option<u32>)
{
    if stack.len() > u32::MAX as usize {
        return None;
    }
    let n = stack.len();
    let mut d: usize = 0;
    while d < n
        invariant
            d <= n,
            n == stack@.len(),
            n <= u32::MAX as usize,
        decreases n - d,
    {
        if stack[n - 1 - d] == target {
            return Some(d as u32);
        }
        d += 1;
    }
    None
}

/// Appends the block type of a sequence: empty, or one value type. A
/// sequence declaring several results would need a type-section index,
/// which no construction path produces.
fn write_block_type(out: &mut Vec<u8>, results: &Vec<ValType>) -> (r: Result<(), Error>)
    ensures
        r is Err ==> r->Err_0 == Error::Unimplemented,
{
    if results.len() == 0 {
        out.push(0x40);
        Ok(())
    } else if results.len() == 1 {
        match write_val_type(out, &results[0]) {
            Ok(()) => Ok(()),
            Err(e) => Err(e),
        }
    } else {
        Err(Error::Unimplemented)
    }
}

/// Appends the body of one sequence, resolving nested sequences and branch
/// targets. `fuel` bounds the nesting depth; an attachable sequence tree is
/// never deeper than the number of sequences.
fn encode_seq(
    m: &Module,
    f: &Function,
    seq_index: usize,
    stack: &mut Vec<usize>,
    order: &Vec<LocalId>,
    out: &mut Vec<u8>,
    fuel: usize,
) -> (r: Result<(), Error>)
    requires
        old(stack)@.len() < usize::MAX,
    ensures
        r is Err ==> r->Err_0 == Error::Unimplemented || r->Err_0 == Error::BuilderMisuse,
        final(stack)@.len() == old(stack)@.len(),
    decreases fuel,
{
    if fuel == 0 {
        return Err(Error::BuilderMisuse);
    }
    if seq_index >= f.seqs.len() {
        return Err(Error::BuilderMisuse);
    }
    let n = f.seqs[seq_index].instrs.len();
    let mut i: usize = 0;
    while i < n
        invariant
            seq_index < f.seqs@.len(),
            n == f.seqs@[seq_index as int].instrs@.len(),
            i <= n,
            stack@.len() == old(stack)@.len(),
            stack@.len() < usize::MAX,
            fuel >= 1,
        decreases n - i,
    {
        let instr = f.seqs[seq_index].instrs[i];
        match instr {
            Instr::Block { seq } => {
                out.push(0x02);
                if seq.index >= f.seqs.len() {
                    return Err(Error::BuilderMisuse);
                }
                match write_block_type(out, &f.seqs[seq.index].results) {
                    Ok(()) => {},
                    Err(e) => {
                        return Err(e);
                    },
                }
                if stack.len() >= usize::MAX - 1 {
                    return Err(Error::BuilderMisuse);
                }
                stack.push(seq.index);
                match encode_seq(m, f, seq.index, stack, order, out, fuel - 1) {
                    Ok(()) => {},
                    Err(e) => {
                        let _ = stack.pop();
                        return Err(e);
                    },
                }
                let _ = stack.pop();
                out.push(0x0B);
            },
            Instr::Loop { seq } => {
                out.push(0x03);
                if seq.index >= f.seqs.len() {
                    return Err(Error::BuilderMisuse);
                }
                match write_block_type(out, &f.seqs[seq.index].results) {
                    Ok(()) => {},
                    Err(e) => {
                        return Err(e);
                    },
                }
                if stack.len() >= usize::MAX - 1 {
                    return Err(Error::BuilderMisuse);
                }
                stack.push(seq.index);
                match encode_seq(m, f, seq.index, stack, order, out, fuel - 1) {
                    Ok(()) => {},
                    Err(e) => {
                        let _ = stack.pop();
                        return Err(e);
                    },
                }
                let _ = stack.pop();
                out.push(0x0B);
            },
            Instr::Br { seq } => {
                match depth_of(stack, seq.index) {
                    Some(d) => {
                        out.push(0x0C);
                        write_leb_u32(out, d);
                    },
                    None => {
                        return Err(Error::BuilderMisuse);
                    },
                }
            },
            Instr::BrIf { seq } => {
                match depth_of(stack, seq.index) {
                    Some(d) => {
                        out.push(0x0D);
                        write_leb_u32(out, d);
                    },
                    None => {
                        return Err(Error::BuilderMisuse);
                    },
                }
            },
            Instr::LocalGet { local } => {
                match local_index(order, local) {
                    Some(idx) => {
                        out.push(0x20);
                        write_leb_u32(out, idx);
                    },
                    None => {
                        return Err(Error::BuilderMisuse);
                    },
                }
            },
            Instr::LocalSet { local } => {
                match local_index(order, local) {
                    Some(idx) => {
                        out.push(0x21);
                        write_leb_u32(out, idx);
                    },
                    None => {
                        return Err(Error::BuilderMisuse);
                    },
                }
            },
            Instr::GlobalGet { global } => {
                if global.index >= m.globals.globals.len() || global.index > u32::MAX as usize {
                    return Err(Error::BuilderMisuse);
                }
                out.push(0x23);
                write_leb_u32(out, global.index as u32);
            },
            Instr::GlobalSet { global } => {
                if global.index >= m.globals.globals.len() || global.index > u32::MAX as usize {
                    return Err(Error::BuilderMisuse);
                }
                out.push(0x24);
                write_leb_u32(out, global.index as u32);
            },
            Instr::TableGet { table } => {
                if table.index >= m.tables.tables.len() || table.index > u32::MAX as usize {
                    return Err(Error::BuilderMisuse);
                }
                out.push(0x25);
                write_leb_u32(out, table.index as u32);
            },
            Instr::TableSet { table } => {
                if table.index >= m.tables.tables.len() || table.index > u32::MAX as usize {
                    return Err(Error::BuilderMisuse);
                }
                out.push(0x26);
                write_leb_u32(out, table.index as u32);
            },
            Instr::I32Const { value } => {
                out.push(0x41);
                write_sleb(out, value as i64);
            },
            Instr::Binop { op } => {
                match op {
                    BinaryOp::I32Add => out.push(0x6A),
                    BinaryOp::I32LtU => out.push(0x49),
                }
            },
            Instr::Drop => out.push(0x1A),
            Instr::Return => out.push(0x0F),
            Instr::RefNull { ty } => {
                out.push(0xD0);
                match write_heap_type(out, &ty.heap_type) {
                    Ok(()) => {},
                    Err(e) => {
                        return Err(e);
                    },
                }
            },
            Instr::RefI31 => {
                out.push(0xFB);
                out.push(0x1C);
            },
            Instr::I31GetS => {
                out.push(0xFB);
                out.push(0x1D);
            },
            Instr::I31GetU => {
                out.push(0xFB);
                out.push(0x1E);
            },
            Instr::RefTest { nullable, heap } => {
                out.push(0xFB);
                out.push(
                    if nullable {
                        0x15
                    } else {
                        0x14
                    },
                );
                match write_heap_type(out, &heap) {
                    Ok(()) => {},
                    Err(e) => {
                        return Err(e);
                    },
                }
            },
            Instr::RefCast { nullable, heap } => {
                out.push(0xFB);
                out.push(
                    if nullable {
                        0x17
                    } else {
                        0x16
                    },
                );
                match write_heap_type(out, &heap) {
                    Ok(()) => {},
                    Err(e) => {
                        return Err(e);
                    },
                }
            },
            Instr::BrOnCast { seq, from_nullable, from_heap, to_nullable, to_heap } => {
                match depth_of(stack, seq.index) {
                    Some(d) => {
                        out.push(0xFB);
                        out.push(0x18);
                        let flags: u8 = (if from_nullable {
                            1u8
                        } else {
                            0u8
                        }) + (if to_nullable {
                            2u8
                        } else {
                            0u8
                        });
                        out.push(flags);
                        write_leb_u32(out, d);
                        match write_heap_type(out, &from_heap) {
                            Ok(()) => {},
                            Err(e) => {
                                return Err(e);
                            },
                        }
                        match write_heap_type(out, &to_heap) {
                            Ok(()) => {},
                            Err(e) => {
                                return Err(e);
                            },
                        }
                    },
                    None => {
                        return Err(Error::BuilderMisuse);
                    },
                }
            },
            Instr::BrOnCastFail { seq, from_nullable, from_heap, to_nullable, to_heap } => {
                match depth_of(stack, seq.index) {
                    Some(d) => {
                        out.push(0xFB);
                        out.push(0x19);
                        let flags: u8 = (if from_nullable {
                            1u8
                        } else {
                            0u8
                        }) + (if to_nullable {
                            2u8
                        } else {
                            0u8
                        });
                        out.push(flags);
                        write_leb_u32(out, d);
                        match write_heap_type(out, &from_heap) {
                            Ok(()) => {},
                            Err(e) => {
                                return Err(e);
                            },
                        }
                        match write_heap_type(out, &to_heap) {
                            Ok(()) => {},
                            Err(e) => {
                                return Err(e);
                            },
                        }
                    },
                    None => {
                        return Err(Error::BuilderMisuse);
                    },
                }
            },
            Instr::AnyConvertExtern => {
                out.push(0xFB);
                out.push(0x1A);
            },
            Instr::ExternConvertAny => {
                out.push(0xFB);
                out.push(0x1B);
            },
        }
        i += 1;
    }
    Ok(())
}

/// The locals a function's body mentions beyond its arguments, in id order.
fn collect_extra_locals(f: &Function) -> (r: Vec<LocalId>)
{
    let mut used: Vec<LocalId> = Vec::new();
    let ns = f.seqs.len();
    let mut j: usize = 0;
    while j < ns
        invariant
            j <= ns,
            ns == f.seqs@.len(),
        decreases ns - j,
    {
        let ni = f.seqs[j].instrs.len();
        let mut k: usize = 0;
        while k < ni
            invariant
                k <= ni,
                j < ns,
                ns == f.seqs@.len(),
                ni == f.seqs@[j as int].instrs@.len(),
            decreases ni - k,
        {
            match f.seqs[j].instrs[k] {
                Instr::LocalGet { local } => {
                    if local_index(&f.args, local).is_none() && local_index(&used, local).is_none() {
                        used.push(local);
                    }
                },
                Instr::LocalSet { local } => {
                    if local_index(&f.args, local).is_none() && local_index(&used, local).is_none() {
                        used.push(local);
                    }
                },
                _ => {},
            }
            k += 1;
        }
        j += 1;
    }
    // Order by id so the layout does not depend on first use.
    sort_local_ids(&mut used);
    used
}

/// Insertion sort of local ids by index.
fn sort_local_ids(v: &mut Vec<LocalId>)
{
    let n = v.len();
    let mut i: usize = 1;
    while i < n
        invariant
            n == v@.len(),
            i <= n || n == 0,
        decreases n - i,
    {
        let mut j: usize = i;
        while j > 0
            invariant
                j <= i < n,
                n == v@.len(),
            decreases j,
        {
            if v[j - 1].index > v[j].index {
                let a = v[j - 1];
                let b = v[j];
                v[j - 1] = b;
                v[j] = a;
            }
            j -= 1;
        }
        i += 1;
    }
}

impl Module {
    /// Encodes the module: header, then the type, function, table, global,
    /// export and code sections. Function-entry signatures are left out of
    /// the type section; tombstoned entries everywhere are skipped and the
    /// surviving entries renumbered densely. A concrete heap type anywhere
    /// aborts with `Unimplemented`; an unattachable or dangling reference
    /// aborts with `BuilderMisuse`; no other failure exists.
    #[verifier::rlimit(60)]
    pub fn emit_wasm(&self) -> (r: Result<Vec<u8>, Error>)
        requires
            self.wf(),
        ensures
            match r {
                Ok(bytes) => bytes@.len() >= 8 && bytes@.subrange(0, 8) == spec_header()
                    && bytes@.len() >= 8 + crate::codec::spec_type_section(
                    self.types.entries(),
                ).len() && bytes@.subrange(
                    8,
                    8 + crate::codec::spec_type_section(self.types.entries()).len() as int,
                ) == crate::codec::spec_type_section(self.types.entries()),
                Err(e) => e == Error::Unimplemented || e == Error::BuilderMisuse,
            },
            (self.types.entries().len() == 0 && self.funcs.entries().len() == 0
                && self.tables.tables@.len() == 0 && self.globals.globals@.len() == 0
                && self.exports.exports@.len() == 0) ==> r is Ok,
    {
        let mut out: Vec<u8> = Vec::new();
        out.push(0x00);
        out.push(0x61);
        out.push(0x73);
        out.push(0x6D);
        out.push(0x01);
        out.push(0x00);
        out.push(0x00);
        out.push(0x00);
        proof {
            assert(out@ =~= spec_header());
        }
        let ghost header = out@;
        let ghost entries = self.types.entries();
        let ghost ts = crate::codec::spec_type_section(entries);

        // Type section: live, externally visible types, densely renumbered;
        // function-entry signatures are left out, per spec_type_section.
        let nt = self.types.len();
        let mut type_index: Vec<Option<u32>> = Vec::new();
        let mut type_content: Vec<u8> = Vec::new();
        let mut emitted: u32 = 0;
        let mut i: usize = 0;
        let mut type_count_bytes: Vec<u8> = Vec::new();
        proof {
            assert(entries.take(0) =~= Seq::<Option<crate::ty::TypeKey>>::empty());
            assert(type_content@ =~= crate::codec::spec_type_entries_bytes(entries.take(0)));
        }
        while i < nt
            invariant
                self.wf(),
                entries == self.types.entries(),
                nt == entries.len(),
                i <= nt,
                type_index@.len() == i,
                type_content@ == crate::codec::spec_type_entries_bytes(entries.take(i as int)),
                emitted as nat == crate::codec::spec_emitted_count(entries.take(i as int)),
            decreases nt - i,
        {
            proof {
                assert(entries.take(i as int + 1).drop_last() =~= entries.take(i as int));
                assert(entries.take(i as int + 1).last() == entries[i as int]);
            }
            match self.types.get_at(i) {
                Some(t) => {
                    if t.is_for_function_entry() {
                        type_index.push(None);
                        proof {
                            assert(type_content@ =~= crate::codec::spec_type_entries_bytes(
                                entries.take(i as int + 1),
                            ));
                        }
                    } else {
                        if emitted == u32::MAX {
                            return Err(Error::BuilderMisuse);
                        }
                        type_content.push(0x60);
                        match write_val_types(&mut type_content, t.params()) {
                            Ok(()) => {},
                            Err(e) => {
                                return Err(e);
                            },
                        }
                        match write_val_types(&mut type_content, t.results()) {
                            Ok(()) => {},
                            Err(e) => {
                                return Err(e);
                            },
                        }
                        type_index.push(Some(emitted));
                        emitted = emitted + 1;
                        proof {
                            assert(type_content@ =~= crate::codec::spec_type_entries_bytes(
                                entries.take(i as int),
                            ) + crate::codec::spec_func_type_bytes(t.key()));
                            assert(type_content@ =~= crate::codec::spec_type_entries_bytes(
                                entries.take(i as int + 1),
                            ));
                        }
                    }
                },
                None => {
                    type_index.push(None);
                    proof {
                        assert(type_content@ =~= crate::codec::spec_type_entries_bytes(
                            entries.take(i as int + 1),
                        ));
                    }
                },
            }
            i += 1;
        }
        proof {
            assert(entries.take(nt as int) =~= entries);
        }
        write_leb_u32(&mut type_count_bytes, emitted);
        let ghost count_bytes = type_count_bytes@;
        let ghost content_bytes = type_content@;
        type_count_bytes.append(&mut type_content);
        proof {
            assert(type_count_bytes@ == count_bytes + content_bytes);
        }
        match write_section(&mut out, 1, &type_count_bytes) {
            Ok(()) => {},
            Err(e) => {
                return Err(e);
            },
        }
        proof {
            assert(out@ =~= header + ts);
            assert(out@.subrange(0, 8) =~= header);
            assert(out@.subrange(8, 8 + ts.len() as int) =~= ts);
        }

        // Function section: each live function's type index; and the dense
        // function index of every live function for the export section.
        let nf = self.funcs.len();
        let mut func_index: Vec<Option<u32>> = Vec::new();
        let mut func_content: Vec<u8> = Vec::new();
        let mut live_funcs: u32 = 0;
        let mut fi: usize = 0;
        while fi < nf
            invariant
                self.wf(),
                nf == self.funcs.entries().len(),
                fi <= nf,
                func_index@.len() == fi,
                nf == 0 ==> live_funcs == 0 && func_content@.len() == 0,
            decreases nf - fi,
        {
            match self.funcs.get(crate::ids::FunctionId { index: fi }) {
                Some(f) => {
                    if live_funcs == u32::MAX {
                        return Err(Error::BuilderMisuse);
                    }
                    if f.ty.index >= type_index.len() {
                        return Err(Error::BuilderMisuse);
                    }
                    match type_index[f.ty.index] {
                        Some(ti) => {
                            write_leb_u32(&mut func_content, ti);
                        },
                        None => {
                            return Err(Error::BuilderMisuse);
                        },
                    }
                    func_index.push(Some(live_funcs));
                    live_funcs = live_funcs + 1;
                },
                None => {
                    func_index.push(None);
                },
            }
            fi += 1;
        }
        let mut func_section: Vec<u8> = Vec::new();
        write_leb_u32(&mut func_section, live_funcs);
        func_section.append(&mut func_content);
        match write_section(&mut out, 3, &func_section) {
            Ok(()) => {},
            Err(e) => {
                return Err(e);
            },
        }
        proof {
            assert(out@.subrange(0, 8) =~= header);
            assert(out@.subrange(8, 8 + ts.len() as int) =~= ts);
        }

        // Table section.
        if self.tables.tables.len() > 0 {
            if self.tables.tables.len() > u32::MAX as usize {
                return Err(Error::BuilderMisuse);
            }
            let mut table_content: Vec<u8> = Vec::new();
            write_leb_u32(&mut table_content, self.tables.tables.len() as u32);
            let mut ti: usize = 0;
            let ntab = self.tables.tables.len();
            while ti < ntab
                invariant
                    ti <= ntab,
                    ntab == self.tables.tables@.len(),
                decreases ntab - ti,
            {
                let t = self.tables.tables[ti];
                match crate::codec::write_ref_type(
                    &mut table_content,
                    &t.element_ty,
                ) {
                    Ok(()) => {},
                    Err(e) => {
                        return Err(e);
                    },
                }
                let has_max = t.maximum.is_some();
                let flags: u8 = (if has_max {
                    1u8
                } else {
                    0u8
                }) + (if t.table64 {
                    4u8
                } else {
                    0u8
                });
                table_content.push(flags);
                write_leb_u64(&mut table_content, t.initial);
                match t.maximum {
                    Some(mx) => {
                        write_leb_u64(&mut table_content, mx);
                    },
                    None => {},
                }
                ti += 1;
            }
            match write_section(&mut out, 4, &table_content) {
                Ok(()) => {},
                Err(e) => {
                    return Err(e);
                },
            }
            proof {
                assert(out@.subrange(0, 8) =~= header);
                assert(out@.subrange(8, 8 + ts.len() as int) =~= ts);
            }
        }

        // Global section.
        if self.globals.globals.len() > 0 {
            if self.globals.globals.len() > u32::MAX as usize {
                return Err(Error::BuilderMisuse);
            }
            let mut global_content: Vec<u8> = Vec::new();
            write_leb_u32(&mut global_content, self.globals.globals.len() as u32);
            let mut gi: usize = 0;
            let ng = self.globals.globals.len();
            while gi < ng
                invariant
                    gi <= ng,
                    ng == self.globals.globals@.len(),
                decreases ng - gi,
            {
                let g = self.globals.globals[gi];
                match write_val_type(&mut global_content, &g.ty) {
                    Ok(()) => {},
                    Err(e) => {
                        return Err(e);
                    },
                }
                global_content.push(
                    if g.mutable {
                        0x01
                    } else {
                        0x00
                    },
                );
                match g.init {
                    ConstExpr::Value(Value::I32(v)) => {
                        global_content.push(0x41);
                        write_sleb(&mut global_content, v as i64);
                    },
                    ConstExpr::Value(Value::I64(v)) => {
                        global_content.push(0x42);
                        write_sleb(&mut global_content, v);
                    },
                    ConstExpr::RefNull(rt) => {
                        global_content.push(0xD0);
                        match write_heap_type(&mut global_content, &rt.heap_type) {
                            Ok(()) => {},
                            Err(e) => {
                                return Err(e);
                            },
                        }
                    },
                }
                global_content.push(0x0B);
                gi += 1;
            }
            match write_section(&mut out, 6, &global_content) {
                Ok(()) => {},
                Err(e) => {
                    return Err(e);
                },
            }
            proof {
                assert(out@.subrange(0, 8) =~= header);
                assert(out@.subrange(8, 8 + ts.len() as int) =~= ts);
            }
        }

        // Export section.
        if self.exports.exports.len() > 0 {
            if self.exports.exports.len() > u32::MAX as usize {
                return Err(Error::BuilderMisuse);
            }
            let mut export_content: Vec<u8> = Vec::new();
            write_leb_u32(&mut export_content, self.exports.exports.len() as u32);
            let mut ei: usize = 0;
            let ne = self.exports.exports.len();
            while ei < ne
                invariant
                    ei <= ne,
                    ne == self.exports.exports@.len(),
                    func_index@.len() == nf,
                decreases ne - ei,
            {
                let name_bytes = self.exports.exports[ei].name.as_str().as_bytes();
                if name_bytes.len() > u32::MAX as usize {
                    return Err(Error::BuilderMisuse);
                }
                write_leb_u32(&mut export_content, name_bytes.len() as u32);
                export_content.extend_from_slice(name_bytes);
                export_content.push(0x00);
                let item = self.exports.exports[ei].item;
                if item.index >= func_index.len() {
                    return Err(Error::BuilderMisuse);
                }
                match func_index[item.index] {
                    Some(fx) => {
                        write_leb_u32(&mut export_content, fx);
                    },
                    None => {
                        return Err(Error::BuilderMisuse);
                    },
                }
                ei += 1;
            }
            match write_section(&mut out, 7, &export_content) {
                Ok(()) => {},
                Err(e) => {
                    return Err(e);
                },
            }
            proof {
                assert(out@.subrange(0, 8) =~= header);
                assert(out@.subrange(8, 8 + ts.len() as int) =~= ts);
            }
        }

        // Code section: one entry per live function, nesting resolved.
        let mut code_content: Vec<u8> = Vec::new();
        write_leb_u32(&mut code_content, live_funcs);
        let mut ci: usize = 0;
        while ci < nf
            invariant
                self.wf(),
                nf == self.funcs.entries().len(),
                ci <= nf,
                nf == 0 ==> code_content@.len() == 1,
            decreases nf - ci,
        {
            match self.funcs.get(crate::ids::FunctionId { index: ci }) {
                Some(f) => {
                    let extra = collect_extra_locals(f);
                    let mut order: Vec<LocalId> = Vec::new();
                    order.extend_from_slice(f.args.as_slice());
                    order.extend_from_slice(extra.as_slice());
                    let mut body: Vec<u8> = Vec::new();
                    if extra.len() > u32::MAX as usize {
                        return Err(Error::BuilderMisuse);
                    }
                    write_leb_u32(&mut body, extra.len() as u32);
                    let mut xi: usize = 0;
                    let nx = extra.len();
                    while xi < nx
                        invariant
                            self.wf(),
                            xi <= nx,
                            nx == extra@.len(),
                            self.funcs.entries().len() > 0,
                        decreases nx - xi,
                    {
                        write_leb_u32(&mut body, 1);
                        match self.locals.get(extra[xi]) {
                            Some(l) => {
                                match write_val_type(&mut body, &l.ty()) {
                                    Ok(()) => {},
                                    Err(e) => {
                                        return Err(e);
                                    },
                                }
                            },
                            None => {
                                return Err(Error::BuilderMisuse);
                            },
                        }
                        xi += 1;
                    }
                    let mut stack: Vec<usize> = Vec::new();
                    stack.push(0);
                    if f.seqs.len() >= usize::MAX {
                        return Err(Error::BuilderMisuse);
                    }
                    match encode_seq(self, f, 0, &mut stack, &order, &mut body, f.seqs.len()) {
                        Ok(()) => {},
                        Err(e) => {
                            return Err(e);
                        },
                    }
                    body.push(0x0B);
                    if body.len() > u32::MAX as usize {
                        return Err(Error::BuilderMisuse);
                    }
                    write_leb_u32(&mut code_content, body.len() as u32);
                    code_content.append(&mut body);
                },
                None => {},
            }
            ci += 1;
        }
        match write_section(&mut out, 10, &code_content) {
            Ok(()) => {},
            Err(e) => {
                return Err(e);
            },
        }
        proof {
            assert(out@.subrange(0, 8) =~= header);
            assert(out@.subrange(8, 8 + ts.len() as int) =~= ts);
        }
        Ok(out)
    }
}

} // verus!
