//! Decoding a byte stream into the editable graph: sections are parsed,
//! types are interned, and structured control flow is rebuilt as instruction
//! sequences with branch depths resolved back to sequence ids.

use vstd::prelude::*;
use vstd::slice::slice_to_vec;

use crate::builder::FunctionBuilder;
use crate::codec::{
    decode_heap_type, decode_val_type, read_leb_u32, read_leb_u64, read_sleb, read_val_types,
};
use crate::encode::spec_header;
use crate::error::{Error, Unsupported};
use crate::ids::{GlobalId, InstrSeqId, LocalId, TableId, TypeId};
use crate::ir::BinaryOp;
use crate::module::{ConstExpr, Module, ModuleConfig, Value};
use crate::ty::{HeapType, RefType, ValType};

verus! {

/// Whether a decode error is one of the two outcomes the decoder may
/// produce: schema-level malformation, or a recognized-but-unsupported
/// construct.
pub open spec fn decode_error(e: Error) -> bool {
    e is MalformedInput || e is UnsupportedFeature
}

/// Relies on String::from_utf8: it accepts exactly the byte sequences that
/// UTF-8 encode some character sequence, and decodes them to it.
#[verifier::external_body]
fn string_from_utf8(bytes: Vec<u8>) -> (r: Option<String>)
    ensures
        match r {
            Some(s) => vstd::utf8::encode_utf8(s@) == bytes@,
            None => forall|t: Seq<char>| vstd::utf8::encode_utf8(t) != bytes@,
        },
{
    match String::from_utf8(bytes) {
        Ok(s) => Some(s),
        Err(_) => None,
    }
}

/// Reads a block type: nothing, or one value type. A type-section index is
/// recognized and rejected as unsupported.
fn read_block_type(bytes: &[u8], pos: usize) -> (r: Result<(Option<ValType>, usize), Error>)
    ensures
        match r {
            Ok((_, p2)) => pos < p2 <= bytes@.len(),
            Err(e) => decode_error(e),
        },
{
    if pos >= bytes.len() {
        return Err(Error::MalformedInput { offset: pos });
    }
    let b = bytes[pos];
    if b == 0x40 {
        Ok((None, pos + 1))
    } else if b < 0x40 || b >= 0x80 {
        // A non-negative number is an index into the type section.
        Err(Error::UnsupportedFeature(Unsupported::BlockTypeIndex))
    } else {
        match decode_val_type(bytes, pos) {
            Ok((v, p2)) => Ok((Some(v), p2)),
            Err(e) => Err(e),
        }
    }
}

/// Parses the instructions of one sequence up to and including its `end`
/// opcode. Nested blocks and loops become fresh dangling sequences attached
/// where they occur; branch depths are resolved to the sequence ids on the
/// label stack.
#[verifier::loop_isolation(false)]
fn parse_instrs(
    bytes: &[u8],
    start: usize,
    end: usize,
    b: &mut FunctionBuilder,
    seq: InstrSeqId,
    stack: &mut Vec<InstrSeqId>,
    locals_map: &Vec<LocalId>,
    n_tables: usize,
    n_globals: usize,
) -> (r: Result<usize, Error>)
    requires
        start <= end <= bytes@.len(),
        seq.index < old(b)@.seqs.len(),
        old(stack)@.len() < usize::MAX,
    ensures
        final(b)@.seqs.len() >= old(b)@.seqs.len(),
        final(stack)@.len() == old(stack)@.len(),
        match r {
            Ok(p2) => start < p2 <= end,
            Err(e) => decode_error(e),
        },
    decreases end - start,
{
    let mut pos: usize = start;
    loop
        invariant
            end <= bytes@.len(),
            start <= pos <= end,
            seq.index < b@.seqs.len(),
            b@.seqs.len() >= old(b)@.seqs.len(),
            stack@.len() == old(stack)@.len(),
            stack@.len() < usize::MAX,
        decreases end - pos,
    {
        if pos >= end {
            return Err(Error::MalformedInput { offset: pos });
        }
        let op = bytes[pos];
        if op == 0x0B {
            return Ok(pos + 1);
        } else if op == 0x02 || op == 0x03 {
            let (bt, p2) = match read_block_type(bytes, pos + 1) {
                Ok(x) => x,
                Err(e) => {
                    return Err(e);
                },
            };
            if p2 > end {
                return Err(Error::MalformedInput { offset: pos });
            }
            let inner = b.dangling_instr_seq(bt);
            if op == 0x02 {
                b.block(seq, inner);
            } else {
                b.loop_(seq, inner);
            }
            if stack.len() >= usize::MAX - 1 {
                return Err(Error::MalformedInput { offset: pos });
            }
            stack.push(inner);
            let p3 = match parse_instrs(
                bytes,
                p2,
                end,
                b,
                inner,
                stack,
                locals_map,
                n_tables,
                n_globals,
            ) {
                Ok(x) => x,
                Err(e) => {
                    let _ = stack.pop();
                    return Err(e);
                },
            };
            let _ = stack.pop();
            pos = p3;
        } else if op == 0x0C || op == 0x0D {
            let (d, p2) = match read_leb_u32(bytes, pos + 1) {
                Ok(x) => x,
                Err(e) => {
                    return Err(e);
                },
            };
            if p2 > end {
                return Err(Error::MalformedInput { offset: pos });
            }
            if (d as usize) >= stack.len() {
                return Err(Error::MalformedInput { offset: pos });
            }
            let target = stack[stack.len() - 1 - d as usize];
            if op == 0x0C {
                b.br(seq, target);
            } else {
                b.br_if(seq, target);
            }
            pos = p2;
        } else if op == 0x20 || op == 0x21 {
            let (idx, p2) = match read_leb_u32(bytes, pos + 1) {
                Ok(x) => x,
                Err(e) => {
                    return Err(e);
                },
            };
            if p2 > end {
                return Err(Error::MalformedInput { offset: pos });
            }
            if (idx as usize) >= locals_map.len() {
                return Err(Error::MalformedInput { offset: pos });
            }
            let l = locals_map[idx as usize];
            if op == 0x20 {
                b.local_get(seq, l);
            } else {
                b.local_set(seq, l);
            }
            pos = p2;
        } else if op == 0x23 || op == 0x24 {
            let (idx, p2) = match read_leb_u32(bytes, pos + 1) {
                Ok(x) => x,
                Err(e) => {
                    return Err(e);
                },
            };
            if p2 > end || (idx as usize) >= n_globals {
                return Err(Error::MalformedInput { offset: pos });
            }
            let g = GlobalId { index: idx as usize };
            if op == 0x23 {
                b.global_get(seq, g);
            } else {
                b.global_set(seq, g);
            }
            pos = p2;
        } else if op == 0x25 || op == 0x26 {
            let (idx, p2) = match read_leb_u32(bytes, pos + 1) {
                Ok(x) => x,
                Err(e) => {
                    return Err(e);
                },
            };
            if p2 > end || (idx as usize) >= n_tables {
                return Err(Error::MalformedInput { offset: pos });
            }
            let t = TableId { index: idx as usize };
            if op == 0x25 {
                b.table_get(seq, t);
            } else {
                b.table_set(seq, t);
            }
            pos = p2;
        } else if op == 0x41 {
            let (v, p2) = match read_sleb(bytes, pos + 1) {
                Ok(x) => x,
                Err(e) => {
                    return Err(e);
                },
            };
            if p2 > end {
                return Err(Error::MalformedInput { offset: pos });
            }
            if v < i32::MIN as i64 || v > i32::MAX as i64 {
                return Err(Error::MalformedInput { offset: pos });
            }
            b.i32_const(seq, v as i32);
            pos = p2;
        } else if op == 0x6A {
            b.binop(seq, BinaryOp::I32Add);
            pos = pos + 1;
        } else if op == 0x49 {
            b.binop(seq, BinaryOp::I32LtU);
            pos = pos + 1;
        } else if op == 0x1A {
            b.drop(seq);
            pos = pos + 1;
        } else if op == 0x0F {
            b.return_(seq);
            pos = pos + 1;
        } else if op == 0xD0 {
            let (a, p2) = match decode_heap_type(bytes, pos + 1) {
                Ok(x) => x,
                Err(e) => {
                    return Err(e);
                },
            };
            if p2 > end {
                return Err(Error::MalformedInput { offset: pos });
            }
            b.ref_null(seq, RefType { nullable: true, heap_type: HeapType::Abstract(a) });
            pos = p2;
        } else if op == 0xFB {
            let (sub, p2) = match read_leb_u32(bytes, pos + 1) {
                Ok(x) => x,
                Err(e) => {
                    return Err(e);
                },
            };
            if p2 > end {
                return Err(Error::MalformedInput { offset: pos });
            }
            if sub == 0x14 || sub == 0x15 || sub == 0x16 || sub == 0x17 {
                let (a, p3) = match decode_heap_type(bytes, p2) {
                    Ok(x) => x,
                    Err(e) => {
                        return Err(e);
                    },
                };
                if p3 > end {
                    return Err(Error::MalformedInput { offset: pos });
                }
                let nullable = sub == 0x15 || sub == 0x17;
                if sub == 0x14 || sub == 0x15 {
                    b.ref_test(seq, nullable, HeapType::Abstract(a));
                } else {
                    b.ref_cast(seq, nullable, HeapType::Abstract(a));
                }
                pos = p3;
            } else if sub == 0x18 || sub == 0x19 {
                if p2 >= end {
                    return Err(Error::MalformedInput { offset: pos });
                }
                let flags = bytes[p2];
                if flags >= 4 {
                    return Err(Error::MalformedInput { offset: pos });
                }
                let from_nullable = flags == 1 || flags == 3;
                let to_nullable = flags == 2 || flags == 3;
                let (d, p3) = match read_leb_u32(bytes, p2 + 1) {
                    Ok(x) => x,
                    Err(e) => {
                        return Err(e);
                    },
                };
                let (fh, p4) = match decode_heap_type(bytes, p3) {
                    Ok(x) => x,
                    Err(e) => {
                        return Err(e);
                    },
                };
                let (th, p5) = match decode_heap_type(bytes, p4) {
                    Ok(x) => x,
                    Err(e) => {
                        return Err(e);
                    },
                };
                if p5 > end {
                    return Err(Error::MalformedInput { offset: pos });
                }
                if (d as usize) >= stack.len() {
                    return Err(Error::MalformedInput { offset: pos });
                }
                let target = stack[stack.len() - 1 - d as usize];
                if sub == 0x18 {
                    b.br_on_cast(
                        seq,
                        target,
                        from_nullable,
                        HeapType::Abstract(fh),
                        to_nullable,
                        HeapType::Abstract(th),
                    );
                } else {
                    b.br_on_cast_fail(
                        seq,
                        target,
                        from_nullable,
                        HeapType::Abstract(fh),
                        to_nullable,
                        HeapType::Abstract(th),
                    );
                }
                pos = p5;
            } else if sub == 0x1A {
                b.any_convert_extern(seq);
                pos = p2;
            } else if sub == 0x1B {
                b.extern_convert_any(seq);
                pos = p2;
            } else if sub == 0x1C {
                b.ref_i31(seq);
                pos = p2;
            } else if sub == 0x1D {
                b.i31_get_s(seq);
                pos = p2;
            } else if sub == 0x1E {
                b.i31_get_u(seq);
                pos = p2;
            } else {
                return Err(Error::UnsupportedFeature(Unsupported::Opcode));
            }
        } else {
            return Err(Error::UnsupportedFeature(Unsupported::Opcode));
        }
    }
}

impl Module {
    /// Decodes a module: parses the sections this library models, interns
    /// every function signature, and rebuilds each function body as
    /// instruction sequences. Every failure is an explicit `MalformedInput`
    /// or `UnsupportedFeature`; a well-formed module comes back well-formed.
    #[verifier::loop_isolation(false)]
    #[verifier::rlimit(60)]
    pub fn from_buffer(wasm: &[u8]) -> (r: Result<Module, Error>)
        ensures
            match r {
                Ok(m) => m.wf() && wasm@.len() >= 8 && wasm@.subrange(0, 8) == spec_header(),
                Err(e) => decode_error(e),
            },
            wasm@ == spec_header() ==> (r is Ok && r->Ok_0.types.entries()
                == Seq::<Option<crate::ty::TypeKey>>::empty() && r->Ok_0.funcs.entries()
                == Seq::<Option<crate::function::FunctionV>>::empty()
                && r->Ok_0.locals.entries() == Seq::<Option<ValType>>::empty()
                && r->Ok_0.tables.tables@.len() == 0 && r->Ok_0.globals.globals@.len() == 0
                && r->Ok_0.exports.exports@.len() == 0),
    {
        let mut m = Module::with_config(ModuleConfig::new());
        if wasm.len() < 8 {
            proof {
                assert(wasm@ != spec_header());
            }
            return Err(Error::MalformedInput { offset: 0 });
        }
        if wasm[0] != 0x00 || wasm[1] != 0x61 || wasm[2] != 0x73 || wasm[3] != 0x6D || wasm[4]
            != 0x01 || wasm[5] != 0x00 || wasm[6] != 0x00 || wasm[7] != 0x00 {
            proof {
                if wasm@ == spec_header() {
                    assert(wasm@[0] == 0x00 && wasm@[1] == 0x61 && wasm@[2] == 0x73 && wasm@[3]
                        == 0x6D && wasm@[4] == 0x01 && wasm@[5] == 0x00 && wasm@[6] == 0x00
                        && wasm@[7] == 0x00);
                }
            }
            return Err(Error::MalformedInput { offset: 0 });
        }
        proof {
            assert(wasm@.subrange(0, 8) =~= spec_header());
        }
        let mut pos: usize = 8;
        let n = wasm.len();
        // The interned id of each type-section entry, in order.
        let mut type_ids: Vec<TypeId> = Vec::new();
        // The type of each declared function, in order.
        let mut func_tys: Vec<TypeId> = Vec::new();
        while pos < n
            invariant
                m.wf(),
                n == wasm@.len(),
                8 <= pos <= n,
                wasm@ == spec_header() ==> (m.types.entries()
                    == Seq::<Option<crate::ty::TypeKey>>::empty() && m.funcs.entries()
                    == Seq::<Option<crate::function::FunctionV>>::empty() && m.locals.entries()
                    == Seq::<Option<ValType>>::empty() && m.tables.tables@.len() == 0
                    && m.globals.globals@.len() == 0 && m.exports.exports@.len() == 0),
                forall|i: int|
                    0 <= i < type_ids@.len() ==> (#[trigger] type_ids@[i]).index
                        < m.types.entries().len(),
                forall|i: int|
                    0 <= i < func_tys@.len() ==> (#[trigger] func_tys@[i]).index
                        < m.types.entries().len(),
            decreases n - pos,
        {
            proof {
                assert(spec_header().len() == 8);
                assert(wasm@ != spec_header());
            }
            let section_id = wasm[pos];
            let (size, p2) = match read_leb_u32(wasm, pos + 1) {
                Ok(x) => x,
                Err(e) => {
                    return Err(e);
                },
            };
            if size as usize > n - p2 {
                return Err(Error::MalformedInput { offset: pos });
            }
            let send = p2 + size as usize;
            if section_id == 0 {
                // Custom sections (provenance metadata among them) carry no
                // program semantics and are skipped.
                pos = send;
            } else if section_id == 1 {
                let mut cur = p2;
                let (count, p3) = match read_leb_u32(wasm, cur) {
                    Ok(x) => x,
                    Err(e) => {
                        return Err(e);
                    },
                };
                cur = p3;
                let mut c: u32 = 0;
                while c < count
                    invariant
                        m.wf(),
                        n == wasm@.len(),
                        cur <= n,
                        forall|i: int|
                            0 <= i < type_ids@.len() ==> (#[trigger] type_ids@[i]).index
                                < m.types.entries().len(),
                        forall|i: int|
                            0 <= i < func_tys@.len() ==> (#[trigger] func_tys@[i]).index
                                < m.types.entries().len(),
                    decreases count - c,
                {
                    if cur >= n {
                        return Err(Error::MalformedInput { offset: cur });
                    }
                    let form = wasm[cur];
                    if form != 0x60 {
                        if form == 0x5F || form == 0x5E || form == 0x50 || form == 0x4E {
                            return Err(
                                Error::UnsupportedFeature(Unsupported::CompositeType),
                            );
                        }
                        return Err(Error::MalformedInput { offset: cur });
                    }
                    cur = cur + 1;
                    let (params, p4) = match read_val_types(wasm, cur) {
                        Ok(x) => x,
                        Err(e) => {
                            return Err(e);
                        },
                    };
                    cur = p4;
                    let (results, p5) = match read_val_types(wasm, cur) {
                        Ok(x) => x,
                        Err(e) => {
                            return Err(e);
                        },
                    };
                    cur = p5;
                    let tid = m.types.intern(params.as_slice(), results.as_slice());
                    type_ids.push(tid);
                    c = c + 1;
                }
                if cur != send {
                    return Err(Error::MalformedInput { offset: cur });
                }
                pos = send;
            } else if section_id == 3 {
                let mut cur = p2;
                let (count, p3) = match read_leb_u32(wasm, cur) {
                    Ok(x) => x,
                    Err(e) => {
                        return Err(e);
                    },
                };
                cur = p3;
                let mut c: u32 = 0;
                while c < count
                    invariant
                        m.wf(),
                        n == wasm@.len(),
                        cur <= n,
                        forall|i: int|
                            0 <= i < type_ids@.len() ==> (#[trigger] type_ids@[i]).index
                                < m.types.entries().len(),
                        forall|i: int|
                            0 <= i < func_tys@.len() ==> (#[trigger] func_tys@[i]).index
                                < m.types.entries().len(),
                    decreases count - c,
                {
                    let (ti, p4) = match read_leb_u32(wasm, cur) {
                        Ok(x) => x,
                        Err(e) => {
                            return Err(e);
                        },
                    };
                    cur = p4;
                    if (ti as usize) >= type_ids.len() {
                        return Err(Error::MalformedInput { offset: cur });
                    }
                    func_tys.push(type_ids[ti as usize]);
                    c = c + 1;
                }
                if cur != send {
                    return Err(Error::MalformedInput { offset: cur });
                }
                pos = send;
            } else if section_id == 4 {
                let mut cur = p2;
                let (count, p3) = match read_leb_u32(wasm, cur) {
                    Ok(x) => x,
                    Err(e) => {
                        return Err(e);
                    },
                };
                cur = p3;
                let mut c: u32 = 0;
                while c < count
                    invariant
                        m.wf(),
                        n == wasm@.len(),
                        cur <= n,
                        forall|i: int|
                            0 <= i < type_ids@.len() ==> (#[trigger] type_ids@[i]).index
                                < m.types.entries().len(),
                        forall|i: int|
                            0 <= i < func_tys@.len() ==> (#[trigger] func_tys@[i]).index
                                < m.types.entries().len(),
                    decreases count - c,
                {
                    let (et, p4) = match decode_val_type(wasm, cur) {
                        Ok(x) => x,
                        Err(e) => {
                            return Err(e);
                        },
                    };
                    cur = p4;
                    let elem = match et {
                        ValType::Ref(t) => t,
                        _ => {
                            return Err(Error::MalformedInput { offset: cur });
                        },
                    };
                    if cur >= n {
                        return Err(Error::MalformedInput { offset: cur });
                    }
                    let flags = wasm[cur];
                    cur = cur + 1;
                    let (table64, has_max) = if flags == 0x00 {
                        (false, false)
                    } else if flags == 0x01 {
                        (false, true)
                    } else if flags == 0x04 {
                        (true, false)
                    } else if flags == 0x05 {
                        (true, true)
                    } else {
                        return Err(Error::MalformedInput { offset: cur });
                    };
                    let (initial, p5) = match read_leb_u64(wasm, cur) {
                        Ok(x) => x,
                        Err(e) => {
                            return Err(e);
                        },
                    };
                    cur = p5;
                    let maximum = if has_max {
                        let (mx, p6) = match read_leb_u64(wasm, cur) {
                            Ok(x) => x,
                            Err(e) => {
                                return Err(e);
                            },
                        };
                        cur = p6;
                        Some(mx)
                    } else {
                        None
                    };
                    let _ = m.tables.add_local(table64, initial, maximum, elem);
                    c = c + 1;
                }
                if cur != send {
                    return Err(Error::MalformedInput { offset: cur });
                }
                pos = send;
            } else if section_id == 6 {
                let mut cur = p2;
                let (count, p3) = match read_leb_u32(wasm, cur) {
                    Ok(x) => x,
                    Err(e) => {
                        return Err(e);
                    },
                };
                cur = p3;
                let mut c: u32 = 0;
                while c < count
                    invariant
                        m.wf(),
                        n == wasm@.len(),
                        cur <= n,
                        forall|i: int|
                            0 <= i < type_ids@.len() ==> (#[trigger] type_ids@[i]).index
                                < m.types.entries().len(),
                        forall|i: int|
                            0 <= i < func_tys@.len() ==> (#[trigger] func_tys@[i]).index
                                < m.types.entries().len(),
                    decreases count - c,
                {
                    let (ty, p4) = match decode_val_type(wasm, cur) {
                        Ok(x) => x,
                        Err(e) => {
                            return Err(e);
                        },
                    };
                    cur = p4;
                    if cur >= n {
                        return Err(Error::MalformedInput { offset: cur });
                    }
                    let mut_byte = wasm[cur];
                    cur = cur + 1;
                    let mutable = if mut_byte == 0x00 {
                        false
                    } else if mut_byte == 0x01 {
                        true
                    } else {
                        return Err(Error::MalformedInput { offset: cur });
                    };
                    if cur >= n {
                        return Err(Error::MalformedInput { offset: cur });
                    }
                    let opc = wasm[cur];
                    let init = if opc == 0x41 {
                        let (v, p5) = match read_sleb(wasm, cur + 1) {
                            Ok(x) => x,
                            Err(e) => {
                                return Err(e);
                            },
                        };
                        cur = p5;
                        if v < i32::MIN as i64 || v > i32::MAX as i64 {
                            return Err(Error::MalformedInput { offset: cur });
                        }
                        ConstExpr::Value(Value::I32(v as i32))
                    } else if opc == 0x42 {
                        let (v, p5) = match read_sleb(wasm, cur + 1) {
                            Ok(x) => x,
                            Err(e) => {
                                return Err(e);
                            },
                        };
                        cur = p5;
                        ConstExpr::Value(Value::I64(v))
                    } else if opc == 0xD0 {
                        let (a, p5) = match decode_heap_type(wasm, cur + 1) {
                            Ok(x) => x,
                            Err(e) => {
                                return Err(e);
                            },
                        };
                        cur = p5;
                        ConstExpr::RefNull(
                            RefType { nullable: true, heap_type: HeapType::Abstract(a) },
                        )
                    } else {
                        return Err(Error::MalformedInput { offset: cur });
                    };
                    if cur >= n || wasm[cur] != 0x0B {
                        return Err(Error::MalformedInput { offset: cur });
                    }
                    cur = cur + 1;
                    let _ = m.globals.add_local(ty, mutable, false, init);
                    c = c + 1;
                }
                if cur != send {
                    return Err(Error::MalformedInput { offset: cur });
                }
                pos = send;
            } else if section_id == 7 {
                let mut cur = p2;
                let (count, p3) = match read_leb_u32(wasm, cur) {
                    Ok(x) => x,
                    Err(e) => {
                        return Err(e);
                    },
                };
                cur = p3;
                let mut c: u32 = 0;
                while c < count
                    invariant
                        m.wf(),
                        n == wasm@.len(),
                        cur <= n,
                        forall|i: int|
                            0 <= i < type_ids@.len() ==> (#[trigger] type_ids@[i]).index
                                < m.types.entries().len(),
                        forall|i: int|
                            0 <= i < func_tys@.len() ==> (#[trigger] func_tys@[i]).index
                                < m.types.entries().len(),
                    decreases count - c,
                {
                    let (nlen, p4) = match read_leb_u32(wasm, cur) {
                        Ok(x) => x,
                        Err(e) => {
                            return Err(e);
                        },
                    };
                    cur = p4;
                    if (nlen as usize) > n - cur {
                        return Err(Error::MalformedInput { offset: cur });
                    }
                    let name_bytes = vstd::slice::slice_subrange(wasm, cur, cur + nlen as usize);
                    cur = cur + nlen as usize;
                    let name = match string_from_utf8(slice_to_vec(name_bytes)) {
                        Some(s) => s,
                        None => {
                            return Err(Error::MalformedInput { offset: cur });
                        },
                    };
                    if cur >= n {
                        return Err(Error::MalformedInput { offset: cur });
                    }
                    let kind = wasm[cur];
                    cur = cur + 1;
                    if kind != 0x00 {
                        return Err(Error::UnsupportedFeature(Unsupported::ExportKind));
                    }
                    let (fx, p5) = match read_leb_u32(wasm, cur) {
                        Ok(x) => x,
                        Err(e) => {
                            return Err(e);
                        },
                    };
                    cur = p5;
                    // The format fixes the section order, so every declared
                    // function is already known here.
                    if (fx as usize) >= func_tys.len() {
                        return Err(Error::MalformedInput { offset: cur });
                    }
                    let _ = m.exports.add(
                        name.as_str(),
                        crate::ids::FunctionId { index: fx as usize },
                    );
                    c = c + 1;
                }
                if cur != send {
                    return Err(Error::MalformedInput { offset: cur });
                }
                pos = send;
            } else if section_id == 10 {
                let mut cur = p2;
                let (count, p3) = match read_leb_u32(wasm, cur) {
                    Ok(x) => x,
                    Err(e) => {
                        return Err(e);
                    },
                };
                cur = p3;
                if (count as usize) != func_tys.len() {
                    return Err(Error::MalformedInput { offset: cur });
                }
                let mut c: u32 = 0;
                while c < count
                    invariant
                        m.wf(),
                        n == wasm@.len(),
                        cur <= n,
                        count as usize == func_tys@.len(),
                        forall|i: int|
                            0 <= i < type_ids@.len() ==> (#[trigger] type_ids@[i]).index
                                < m.types.entries().len(),
                        forall|i: int|
                            0 <= i < func_tys@.len() ==> (#[trigger] func_tys@[i]).index
                                < m.types.entries().len(),
                    decreases count - c,
                {
                    let (bsize, p4) = match read_leb_u32(wasm, cur) {
                        Ok(x) => x,
                        Err(e) => {
                            return Err(e);
                        },
                    };
                    cur = p4;
                    if (bsize as usize) > n - cur {
                        return Err(Error::MalformedInput { offset: cur });
                    }
                    let bend = cur + bsize as usize;
                    let tid = func_tys[c as usize];
                    let (params, results) = match m.types.lookup(tid) {
                        Ok(t) => (slice_to_vec(t.params()), slice_to_vec(t.results())),
                        Err(_) => {
                            return Err(Error::MalformedInput { offset: cur });
                        },
                    };
                    let ghost tlen = m.types.entries().len();
                    let mut bld = FunctionBuilder::new(
                        &mut m.types,
                        params.as_slice(),
                        results.as_slice(),
                    );
                    proof {
                        assert(m.types.entries().len() >= tlen);
                    }
                    // Argument locals, then the declared locals, in index
                    // order.
                    let mut locals_map: Vec<LocalId> = Vec::new();
                    let mut args: Vec<LocalId> = Vec::new();
                    let np = params.len();
                    let mut pi: usize = 0;
                    while pi < np
                        invariant
                            m.wf(),
                            np == params@.len(),
                            pi <= np,
                            forall|i: int|
                                0 <= i < type_ids@.len() ==> (#[trigger] type_ids@[i]).index
                                    < m.types.entries().len(),
                            forall|i: int|
                                0 <= i < func_tys@.len() ==> (#[trigger] func_tys@[i]).index
                                    < m.types.entries().len(),
                        decreases np - pi,
                    {
                        let l = m.locals.add(params[pi]);
                        locals_map.push(l);
                        args.push(l);
                        pi += 1;
                    }
                    let (ndecl, p5) = match read_leb_u32(wasm, cur) {
                        Ok(x) => x,
                        Err(e) => {
                            return Err(e);
                        },
                    };
                    cur = p5;
                    let mut di: u32 = 0;
                    while di < ndecl
                        invariant
                            m.wf(),
                            n == wasm@.len(),
                            cur <= n,
                            forall|i: int|
                                0 <= i < type_ids@.len() ==> (#[trigger] type_ids@[i]).index
                                    < m.types.entries().len(),
                            forall|i: int|
                                0 <= i < func_tys@.len() ==> (#[trigger] func_tys@[i]).index
                                    < m.types.entries().len(),
                        decreases ndecl - di,
                    {
                        let (cnt, p6) = match read_leb_u32(wasm, cur) {
                            Ok(x) => x,
                            Err(e) => {
                                return Err(e);
                            },
                        };
                        cur = p6;
                        let (ty, p7) = match decode_val_type(wasm, cur) {
                            Ok(x) => x,
                            Err(e) => {
                                return Err(e);
                            },
                        };
                        cur = p7;
                        let mut k: u32 = 0;
                        while k < cnt
                            invariant
                                m.wf(),
                            forall|i: int|
                                0 <= i < type_ids@.len() ==> (#[trigger] type_ids@[i]).index
                                    < m.types.entries().len(),
                            forall|i: int|
                                0 <= i < func_tys@.len() ==> (#[trigger] func_tys@[i]).index
                                    < m.types.entries().len(),
                            decreases cnt - k,
                        {
                            let l = m.locals.add(ty);
                            locals_map.push(l);
                            k = k + 1;
                        }
                        di = di + 1;
                    }
                    if cur > bend || bend > n {
                        return Err(Error::MalformedInput { offset: cur });
                    }
                    let mut stack: Vec<InstrSeqId> = Vec::new();
                    let entry = bld.func_body();
                    stack.push(entry);
                    let p8 = match parse_instrs(
                        wasm,
                        cur,
                        bend,
                        &mut bld,
                        entry,
                        &mut stack,
                        &locals_map,
                        m.tables.tables.len(),
                        m.globals.globals.len(),
                    ) {
                        Ok(x) => x,
                        Err(e) => {
                            return Err(e);
                        },
                    };
                    if p8 != bend {
                        return Err(Error::MalformedInput { offset: p8 });
                    }
                    cur = bend;
                    match bld.finish(args, &mut m.funcs) {
                        Ok(_) => {},
                        Err(_) => {
                            return Err(Error::MalformedInput { offset: cur });
                        },
                    }
                    c = c + 1;
                }
                if cur != send {
                    return Err(Error::MalformedInput { offset: cur });
                }
                pos = send;
            } else {
                return Err(Error::UnsupportedFeature(Unsupported::Section));
            }
        }
        Ok(m)
    }
}

} // verus!
