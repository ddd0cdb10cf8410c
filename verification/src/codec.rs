//! The byte-level schema: integer encodings and value-type encodings, with
//! decoding contracts strong enough to give round trips.

use vstd::prelude::*;

use crate::error::{Error, Unsupported};
use crate::ty::{AbstractHeapType, HeapType, RefType, TypeKey, ValType};

verus! {

/// The canonical variable-length encoding of an unsigned number: seven bits
/// per byte, least significant group first, high bit marking continuation.
pub open spec fn spec_leb_u64(n: nat) -> Seq<u8>
    decreases n,
{
    if n < 128 {
        seq![n as u8]
    } else {
        seq![(n % 128 + 128) as u8] + spec_leb_u64(n / 128)
    }
}

/// The canonical variable-length encoding of a signed number.
pub open spec fn spec_sleb(v: int) -> Seq<u8>
    decreases (if v < 0 {
        -v
    } else {
        v
    }),
{
    if -64 <= v && v < 64 {
        seq![(if v >= 0 {
            v
        } else {
            v + 128
        }) as u8]
    } else {
        seq![((v % 128) + 128) as u8] + spec_sleb(v / 128)
    }
}

/// Appends the canonical unsigned encoding of `n`.
pub fn write_leb_u64(out: &mut Vec<u8>, n: u64)
    ensures
        final(out)@ == old(out)@ + spec_leb_u64(n as nat),
    decreases n,
{
    if n < 128 {
        out.push(n as u8);
        proof {
            assert(final(out)@ =~= old(out)@ + spec_leb_u64(n as nat));
        }
    } else {
        out.push((n % 128 + 128) as u8);
        write_leb_u64(out, n / 128);
        proof {
            assert(final(out)@ =~= old(out)@ + spec_leb_u64(n as nat));
        }
    }
}

/// Appends the canonical unsigned encoding of a 32-bit number.
pub fn write_leb_u32(out: &mut Vec<u8>, n: u32)
    ensures
        final(out)@ == old(out)@ + spec_leb_u64(n as nat),
{
    write_leb_u64(out, n as u64);
}

/// Reads one canonically encoded unsigned number. Exactly the canonical
/// encodings are accepted: whenever the bytes at `pos` start with the
/// encoding of some `v`, that `v` and the position after it are returned.
pub fn read_leb_u64(bytes: &[u8], pos: usize) -> (r: Result<(u64, usize), Error>)
    ensures
        match r {
            Ok((v, p2)) => pos < p2 <= bytes@.len() && bytes@.subrange(pos as int, p2 as int)
                == spec_leb_u64(v as nat),
            Err(e) => e == (Error::MalformedInput { offset: pos }),
        },
        forall|v: u64|
            (pos + spec_leb_u64(v as nat).len() <= bytes@.len() && bytes@.subrange(
                pos as int,
                pos + spec_leb_u64(v as nat).len(),
            ) == spec_leb_u64(v as nat)) ==> r == Ok::<(u64, usize), Error>(
                (v, (pos + spec_leb_u64(v as nat).len()) as usize),
            ),
    decreases bytes@.len() - pos,
{
    if pos >= bytes.len() {
        return Err(Error::MalformedInput { offset: pos });
    }
    let b = bytes[pos];
    if b < 128 {
        proof {
            assert(bytes@.subrange(pos as int, pos as int + 1) =~= seq![b]);
            assert forall|v: u64|
                (pos + spec_leb_u64(v as nat).len() <= bytes@.len() && bytes@.subrange(
                    pos as int,
                    pos + spec_leb_u64(v as nat).len(),
                ) == spec_leb_u64(v as nat)) implies v == b as u64 && spec_leb_u64(v as nat).len()
                == 1 by {
                let e = spec_leb_u64(v as nat);
                assert(e[0] == bytes@[pos as int]);
                if v >= 128 {
                    assert(e[0] == (v as nat % 128 + 128) as u8);
                    assert(e[0] >= 128);
                }
            }
        }
        Ok((b as u64, pos + 1))
    } else {
        let inner = read_leb_u64(bytes, pos + 1);
        proof {
            assert forall|v: u64|
                (pos + spec_leb_u64(v as nat).len() <= bytes@.len() && bytes@.subrange(
                    pos as int,
                    pos + spec_leb_u64(v as nat).len(),
                ) == spec_leb_u64(v as nat)) implies inner == Ok::<(u64, usize), Error>(
                ((v / 128) as u64, (pos + spec_leb_u64(v as nat).len()) as usize),
            ) && v >= 128 && v % 128 == (b - 128) as u64 by {
                lemma_leb_prefix_decodes(bytes@, pos as int, v as nat);
                let hiw: u64 = (v as nat / 128) as u64;
                assert(hiw as nat == v as nat / 128);
                assert(pos + 1 + spec_leb_u64(hiw as nat).len() <= bytes@.len());
                assert(bytes@.subrange(
                    pos as int + 1,
                    pos + 1 + spec_leb_u64(hiw as nat).len(),
                ) == spec_leb_u64(hiw as nat));
                assert(spec_leb_u64(v as nat).len() == 1 + spec_leb_u64(hiw as nat).len());
            }
        }
        match inner {
            Ok((hi, p2)) => {
                if hi == 0 {
                    // A zero continuation would be a redundant, non-canonical
                    // form.
                    return Err(Error::MalformedInput { offset: pos });
                }
                if hi > (u64::MAX - 127) / 128 {
                    return Err(Error::MalformedInput { offset: pos });
                }
                let low = b - 128;
                let v = hi * 128 + low as u64;
                proof {
                    assert(v as nat % 128 == low as nat && v as nat / 128 == hi as nat) by {
                        assert(v == hi * 128 + low);
                    };
                    assert(v >= 128);
                    assert(spec_leb_u64(v as nat) == seq![b] + spec_leb_u64(hi as nat));
                    assert(bytes@.subrange(pos as int, p2 as int) =~= seq![b] + bytes@.subrange(
                        pos as int + 1,
                        p2 as int,
                    ));
                }
                Ok((v, p2))
            },
            Err(_) => Err(Error::MalformedInput { offset: pos }),
        }
    }
}

/// When the bytes at `pos` start with the canonical encoding of `v` and that
/// encoding continues past its first byte, the tail at `pos + 1` starts with
/// the canonical encoding of `v / 128`.
proof fn lemma_leb_prefix_decodes(bytes: Seq<u8>, pos: int, v: nat)
    requires
        0 <= pos < bytes.len(),
        pos + spec_leb_u64(v).len() <= bytes.len(),
        bytes.subrange(pos, pos + spec_leb_u64(v).len()) == spec_leb_u64(v),
        bytes[pos] >= 128,
    ensures
        v >= 128,
        bytes[pos] == (v % 128 + 128) as u8,
        pos + 1 + spec_leb_u64(v / 128).len() <= bytes.len(),
        bytes.subrange(pos + 1, pos + 1 + spec_leb_u64(v / 128).len()) == spec_leb_u64(v / 128),
        v / 128 >= 1,
{
    let e = spec_leb_u64(v);
    assert(bytes[pos] == e[0]);
    if v < 128 {
        assert(e[0] == v as u8);
        assert(false);
    }
    assert(e == seq![(v % 128 + 128) as u8] + spec_leb_u64(v / 128));
    assert(bytes.subrange(pos + 1, pos + 1 + spec_leb_u64(v / 128).len()) =~= spec_leb_u64(
        v / 128,
    )) by {
        assert forall|i: int| 0 <= i < spec_leb_u64(v / 128).len() implies #[trigger] bytes.subrange(
            pos + 1,
            pos + 1 + spec_leb_u64(v / 128).len(),
        )[i] == spec_leb_u64(v / 128)[i] by {
            assert(bytes[pos + 1 + i] == e[1 + i]);
            assert(e[1 + i] == spec_leb_u64(v / 128)[i]);
        }
    }
}

/// Appends the canonical signed encoding of `v`.
pub fn write_sleb(out: &mut Vec<u8>, v: i64)
    ensures
        final(out)@ == old(out)@ + spec_sleb(v as int),
    decreases (if v < 0 {
        -(v as int)
    } else {
        v as int
    }),
{
    if -64 <= v && v < 64 {
        let low: i64 = if v >= 0 {
            v
        } else {
            v + 128
        };
        out.push(low as u8);
        proof {
            assert(final(out)@ =~= old(out)@ + spec_sleb(v as int));
        }
    } else if v >= 64 {
        let low: i64 = v % 128;
        let next: i64 = v / 128;
        out.push((low + 128) as u8);
        write_sleb(out, next);
        proof {
            assert(v as int % 128 == low as int && v as int / 128 == next as int);
            assert(final(out)@ =~= old(out)@ + spec_sleb(v as int));
        }
    } else {
        let w: i64 = -(v + 1);
        let low: i64 = 127 - (w % 128);
        let next: i64 = -(w / 128) - 1;
        out.push((low + 128) as u8);
        write_sleb(out, next);
        proof {
            assert(v as int == 128 * (next as int) + low as int);
            assert(0 <= low as int && (low as int) < 128);
            assert(v as int % 128 == low as int && v as int / 128 == next as int);
            assert(final(out)@ =~= old(out)@ + spec_sleb(v as int));
        }
    }
}

/// Reads one canonically encoded signed number, accepting exactly the
/// canonical encodings.
pub fn read_sleb(bytes: &[u8], pos: usize) -> (r: Result<(i64, usize), Error>)
    ensures
        match r {
            Ok((v, p2)) => pos < p2 <= bytes@.len() && bytes@.subrange(pos as int, p2 as int)
                == spec_sleb(v as int),
            Err(e) => e == (Error::MalformedInput { offset: pos }),
        },
        forall|v: i64|
            (pos + spec_sleb(v as int).len() <= bytes@.len() && bytes@.subrange(
                pos as int,
                pos + spec_sleb(v as int).len(),
            ) == spec_sleb(v as int)) ==> r == Ok::<(i64, usize), Error>(
                (v, (pos + spec_sleb(v as int).len()) as usize),
            ),
    decreases bytes@.len() - pos,
{
    if pos >= bytes.len() {
        return Err(Error::MalformedInput { offset: pos });
    }
    let b = bytes[pos];
    if b < 128 {
        let v: i64 = if b < 64 {
            b as i64
        } else {
            b as i64 - 128
        };
        proof {
            assert(bytes@.subrange(pos as int, pos as int + 1) =~= seq![b]);
            assert(spec_sleb(v as int) =~= seq![b]);
            assert forall|w: i64|
                (pos + spec_sleb(w as int).len() <= bytes@.len() && bytes@.subrange(
                    pos as int,
                    pos + spec_sleb(w as int).len(),
                ) == spec_sleb(w as int)) implies w == v && spec_sleb(w as int).len() == 1 by {
                let e = spec_sleb(w as int);
                assert(e[0] == bytes@[pos as int]);
                if !(-64 <= w as int && (w as int) < 64) {
                    assert(e[0] == ((w as int % 128) + 128) as u8);
                    assert(e[0] >= 128);
                }
            }
        }
        Ok((v, pos + 1))
    } else {
        let inner = read_sleb(bytes, pos + 1);
        proof {
            assert forall|w: i64|
                (pos + spec_sleb(w as int).len() <= bytes@.len() && bytes@.subrange(
                    pos as int,
                    pos + spec_sleb(w as int).len(),
                ) == spec_sleb(w as int)) implies inner == Ok::<(i64, usize), Error>(
                ((w as int / 128) as i64, (pos + spec_sleb(w as int).len()) as usize),
            ) && !(-64 <= w as int && (w as int) < 64) && w as int % 128 == (b - 128) as int by {
                lemma_sleb_prefix_decodes(bytes@, pos as int, w as int);
                let hiw: i64 = (w as int / 128) as i64;
                assert(i64::MIN <= w as int / 128 <= i64::MAX);
                assert(hiw as int == w as int / 128);
                assert(pos + 1 + spec_sleb(hiw as int).len() <= bytes@.len());
                assert(bytes@.subrange(
                    pos as int + 1,
                    pos + 1 + spec_sleb(hiw as int).len(),
                ) == spec_sleb(hiw as int));
                assert(spec_sleb(w as int).len() == 1 + spec_sleb(hiw as int).len());
            }
        }
        match inner {
            Ok((hi, p2)) => {
                let low: i64 = b as i64 - 128;
                if (hi == 0 && low < 64) || (hi == -1 && low >= 64) {
                    // The continuation was redundant: non-canonical form.
                    return Err(Error::MalformedInput { offset: pos });
                }
                if hi > (i64::MAX - 127) / 128 || hi < i64::MIN / 128 {
                    return Err(Error::MalformedInput { offset: pos });
                }
                let v = hi * 128 + low;
                proof {
                    assert(v as int == 128 * (hi as int) + low as int);
                    assert(v as int % 128 == low as int && v as int / 128 == hi as int);
                    assert(!(-64 <= v as int && (v as int) < 64));
                    assert(spec_sleb(v as int) == seq![b] + spec_sleb(hi as int));
                    assert(bytes@.subrange(pos as int, p2 as int) =~= seq![b] + bytes@.subrange(
                        pos as int + 1,
                        p2 as int,
                    ));
                }
                Ok((v, p2))
            },
            Err(_) => Err(Error::MalformedInput { offset: pos }),
        }
    }
}

/// When the bytes at `pos` start with the canonical signed encoding of `v`
/// and that encoding continues past its first byte, the tail at `pos + 1`
/// starts with the canonical encoding of `v / 128`, which itself is never a
/// redundant continuation.
proof fn lemma_sleb_prefix_decodes(bytes: Seq<u8>, pos: int, v: int)
    requires
        0 <= pos < bytes.len(),
        pos + spec_sleb(v).len() <= bytes.len(),
        bytes.subrange(pos, pos + spec_sleb(v).len()) == spec_sleb(v),
        bytes[pos] >= 128,
    ensures
        !(-64 <= v && v < 64),
        bytes[pos] == ((v % 128) + 128) as u8,
        pos + 1 + spec_sleb(v / 128).len() <= bytes.len(),
        bytes.subrange(pos + 1, pos + 1 + spec_sleb(v / 128).len()) == spec_sleb(v / 128),
        !(v / 128 == 0 && v % 128 < 64),
        !(v / 128 == -1 && v % 128 >= 64),
{
    let e = spec_sleb(v);
    assert(bytes[pos] == e[0]);
    if -64 <= v && v < 64 {
        assert(e[0] == (if v >= 0 { v } else { v + 128 }) as u8);
        assert(false);
    }
    assert(e == seq![((v % 128) + 128) as u8] + spec_sleb(v / 128));
    assert(bytes.subrange(pos + 1, pos + 1 + spec_sleb(v / 128).len()) =~= spec_sleb(v / 128)) by {
        assert forall|i: int| 0 <= i < spec_sleb(v / 128).len() implies #[trigger] bytes.subrange(
            pos + 1,
            pos + 1 + spec_sleb(v / 128).len(),
        )[i] == spec_sleb(v / 128)[i] by {
            assert(bytes[pos + 1 + i] == e[1 + i]);
            assert(e[1 + i] == spec_sleb(v / 128)[i]);
        }
    }
}

/// The single-byte code of an abstract heap type.
pub open spec fn spec_abs_heap_code(a: AbstractHeapType) -> u8 {
    match a {
        AbstractHeapType::Func => 0x70,
        AbstractHeapType::Extern => 0x6F,
        AbstractHeapType::Any => 0x6E,
        AbstractHeapType::NoneType => 0x71,
        AbstractHeapType::NoExtern => 0x72,
        AbstractHeapType::NoFunc => 0x73,
        AbstractHeapType::Eq => 0x6D,
        AbstractHeapType::Struct => 0x6B,
        AbstractHeapType::Array => 0x6A,
        AbstractHeapType::I31 => 0x6C,
        AbstractHeapType::Exn => 0x69,
        AbstractHeapType::NoExn => 0x74,
    }
}

/// Whether a heap type has an encoding: only abstract heap types do.
pub open spec fn heap_type_encodable(h: HeapType) -> bool {
    h is Abstract
}

/// Whether a reference type has an encoding.
pub open spec fn ref_type_encodable(t: RefType) -> bool {
    heap_type_encodable(t.heap_type)
}

/// Whether a value type has an encoding.
pub open spec fn val_type_encodable(v: ValType) -> bool {
    match v {
        ValType::Ref(t) => ref_type_encodable(t),
        _ => true,
    }
}

/// The encoding of a reference type: the shorthand byte for the nullable
/// abstract forms, the explicit two-byte form otherwise.
pub open spec fn spec_ref_type_bytes(t: RefType) -> Seq<u8>
    recommends
        ref_type_encodable(t),
{
    match t.heap_type {
        HeapType::Abstract(a) => if t.nullable {
            seq![spec_abs_heap_code(a)]
        } else {
            seq![0x64u8, spec_abs_heap_code(a)]
        },
        HeapType::Concrete(_) => Seq::empty(),
    }
}

/// The encoding of a value type.
pub open spec fn spec_val_type_bytes(v: ValType) -> Seq<u8>
    recommends
        val_type_encodable(v),
{
    match v {
        ValType::I32 => seq![0x7Fu8],
        ValType::I64 => seq![0x7Eu8],
        ValType::F32 => seq![0x7Du8],
        ValType::F64 => seq![0x7Cu8],
        ValType::V128 => seq![0x7Bu8],
        ValType::Ref(t) => spec_ref_type_bytes(t),
    }
}

/// The single-byte code of an abstract heap type.
pub fn abs_heap_code(a: AbstractHeapType) -> (r: u8)
    ensures
        r == spec_abs_heap_code(a),
{
    match a {
        AbstractHeapType::Func => 0x70,
        AbstractHeapType::Extern => 0x6F,
        AbstractHeapType::Any => 0x6E,
        AbstractHeapType::NoneType => 0x71,
        AbstractHeapType::NoExtern => 0x72,
        AbstractHeapType::NoFunc => 0x73,
        AbstractHeapType::Eq => 0x6D,
        AbstractHeapType::Struct => 0x6B,
        AbstractHeapType::Array => 0x6A,
        AbstractHeapType::I31 => 0x6C,
        AbstractHeapType::Exn => 0x69,
        AbstractHeapType::NoExn => 0x74,
    }
}

/// Appends the encoding of a reference type; a concrete heap type is a
/// representable but not encodable state and aborts the encode with
/// `Unimplemented`, leaving the output untouched.
pub fn write_ref_type(out: &mut Vec<u8>, t: &RefType) -> (r: Result<(), Error>)
    ensures
        match r {
            Ok(()) => ref_type_encodable(*t) && final(out)@ == old(out)@ + spec_ref_type_bytes(*t),
            Err(e) => e == Error::Unimplemented && !ref_type_encodable(*t) && final(out)@ == old(
                out,
            )@,
        },
{
    match t.heap_type {
        HeapType::Abstract(a) => {
            if t.nullable {
                out.push(abs_heap_code(a));
            } else {
                out.push(0x64);
                out.push(abs_heap_code(a));
            }
            proof {
                assert(final(out)@ =~= old(out)@ + spec_ref_type_bytes(*t));
            }
            Ok(())
        },
        HeapType::Concrete(_) => Err(Error::Unimplemented),
    }
}

/// Appends the encoding of a value type; a concrete heap type aborts with
/// `Unimplemented`.
pub fn write_val_type(out: &mut Vec<u8>, v: &ValType) -> (r: Result<(), Error>)
    ensures
        match r {
            Ok(()) => val_type_encodable(*v) && final(out)@ == old(out)@ + spec_val_type_bytes(*v),
            Err(e) => e == Error::Unimplemented && !val_type_encodable(*v) && final(out)@ == old(
                out,
            )@,
        },
{
    match v {
        ValType::I32 => {
            out.push(0x7F);
            proof {
                assert(final(out)@ =~= old(out)@ + spec_val_type_bytes(*v));
            }
            Ok(())
        },
        ValType::I64 => {
            out.push(0x7E);
            proof {
                assert(final(out)@ =~= old(out)@ + spec_val_type_bytes(*v));
            }
            Ok(())
        },
        ValType::F32 => {
            out.push(0x7D);
            proof {
                assert(final(out)@ =~= old(out)@ + spec_val_type_bytes(*v));
            }
            Ok(())
        },
        ValType::F64 => {
            out.push(0x7C);
            proof {
                assert(final(out)@ =~= old(out)@ + spec_val_type_bytes(*v));
            }
            Ok(())
        },
        ValType::V128 => {
            out.push(0x7B);
            proof {
                assert(final(out)@ =~= old(out)@ + spec_val_type_bytes(*v));
            }
            Ok(())
        },
        ValType::Ref(t) => {
            let r = write_ref_type(out, t);
            proof {
                if r is Ok {
                    assert(final(out)@ =~= old(out)@ + spec_val_type_bytes(*v));
                }
            }
            r
        },
    }
}


/// Reads one canonically encoded unsigned number that must fit 32 bits.
pub fn read_leb_u32(bytes: &[u8], pos: usize) -> (r: Result<(u32, usize), Error>)
    ensures
        match r {
            Ok((v, p2)) => pos < p2 <= bytes@.len() && bytes@.subrange(pos as int, p2 as int)
                == spec_leb_u64(v as nat),
            Err(e) => e == (Error::MalformedInput { offset: pos }),
        },
        forall|v: u32|
            (pos + spec_leb_u64(v as nat).len() <= bytes@.len() && bytes@.subrange(
                pos as int,
                pos + spec_leb_u64(v as nat).len(),
            ) == spec_leb_u64(v as nat)) ==> r == Ok::<(u32, usize), Error>(
                (v, (pos + spec_leb_u64(v as nat).len()) as usize),
            ),
{
    match read_leb_u64(bytes, pos) {
        Ok((v, p2)) => {
            if v > u32::MAX as u64 {
                return Err(Error::MalformedInput { offset: pos });
            }
            Ok((v as u32, p2))
        },
        Err(e) => Err(e),
    }
}

/// Each abstract heap type is recovered from its own code.
pub proof fn lemma_abs_code_distinct(x: AbstractHeapType, y: AbstractHeapType)
    requires
        spec_abs_heap_code(x) == spec_abs_heap_code(y),
    ensures
        x == y,
{
    match x {
        AbstractHeapType::Func => assert(spec_abs_heap_code(x) == 0x70),
        AbstractHeapType::Extern => assert(spec_abs_heap_code(x) == 0x6F),
        AbstractHeapType::Any => assert(spec_abs_heap_code(x) == 0x6E),
        AbstractHeapType::NoneType => assert(spec_abs_heap_code(x) == 0x71),
        AbstractHeapType::NoExtern => assert(spec_abs_heap_code(x) == 0x72),
        AbstractHeapType::NoFunc => assert(spec_abs_heap_code(x) == 0x73),
        AbstractHeapType::Eq => assert(spec_abs_heap_code(x) == 0x6D),
        AbstractHeapType::Struct => assert(spec_abs_heap_code(x) == 0x6B),
        AbstractHeapType::Array => assert(spec_abs_heap_code(x) == 0x6A),
        AbstractHeapType::I31 => assert(spec_abs_heap_code(x) == 0x6C),
        AbstractHeapType::Exn => assert(spec_abs_heap_code(x) == 0x69),
        AbstractHeapType::NoExn => assert(spec_abs_heap_code(x) == 0x74),
    }
    match y {
        AbstractHeapType::Func => assert(spec_abs_heap_code(y) == 0x70),
        AbstractHeapType::Extern => assert(spec_abs_heap_code(y) == 0x6F),
        AbstractHeapType::Any => assert(spec_abs_heap_code(y) == 0x6E),
        AbstractHeapType::NoneType => assert(spec_abs_heap_code(y) == 0x71),
        AbstractHeapType::NoExtern => assert(spec_abs_heap_code(y) == 0x72),
        AbstractHeapType::NoFunc => assert(spec_abs_heap_code(y) == 0x73),
        AbstractHeapType::Eq => assert(spec_abs_heap_code(y) == 0x6D),
        AbstractHeapType::Struct => assert(spec_abs_heap_code(y) == 0x6B),
        AbstractHeapType::Array => assert(spec_abs_heap_code(y) == 0x6A),
        AbstractHeapType::I31 => assert(spec_abs_heap_code(y) == 0x6C),
        AbstractHeapType::Exn => assert(spec_abs_heap_code(y) == 0x69),
        AbstractHeapType::NoExn => assert(spec_abs_heap_code(y) == 0x74),
    }
}

/// The single-byte codes of the two continuation-related abstract heap
/// types, which this library rejects rather than models.
pub open spec fn is_continuation_code(b: u8) -> bool {
    b == 0x68 || b == 0x75
}

/// Reads one heap type. Exactly the twelve modeled abstract heap types are
/// accepted; a continuation type or a concrete (indexed) heap type is an
/// explicit `UnsupportedFeature`, never a silent substitution.
pub fn decode_heap_type(bytes: &[u8], pos: usize) -> (r: Result<(AbstractHeapType, usize), Error>)
    ensures
        match r {
            Ok((a, p2)) => p2 == pos + 1 && pos < bytes@.len() && bytes@[pos as int]
                == spec_abs_heap_code(a),
            Err(e) => {
                if pos >= bytes@.len() {
                    e == (Error::MalformedInput { offset: pos })
                } else if is_continuation_code(bytes@[pos as int]) {
                    e == Error::UnsupportedFeature(Unsupported::ContinuationType)
                } else if bytes@[pos as int] < 0x40 || bytes@[pos as int] >= 0x80 {
                    e == Error::UnsupportedFeature(Unsupported::ConcreteHeapType)
                } else {
                    e == (Error::MalformedInput { offset: pos })
                }
            },
        },
        forall|a: AbstractHeapType|
            (pos < bytes@.len() && bytes@[pos as int] == spec_abs_heap_code(a)) ==> r == Ok::<
                (AbstractHeapType, usize),
                Error,
            >((a, (pos + 1) as usize)),
{
    if pos >= bytes.len() {
        return Err(Error::MalformedInput { offset: pos });
    }
    let b = bytes[pos];
    let r: Result<(AbstractHeapType, usize), Error> = if b == 0x70 {
        Ok((AbstractHeapType::Func, pos + 1))
    } else if b == 0x6F {
        Ok((AbstractHeapType::Extern, pos + 1))
    } else if b == 0x6E {
        Ok((AbstractHeapType::Any, pos + 1))
    } else if b == 0x71 {
        Ok((AbstractHeapType::NoneType, pos + 1))
    } else if b == 0x72 {
        Ok((AbstractHeapType::NoExtern, pos + 1))
    } else if b == 0x73 {
        Ok((AbstractHeapType::NoFunc, pos + 1))
    } else if b == 0x6D {
        Ok((AbstractHeapType::Eq, pos + 1))
    } else if b == 0x6B {
        Ok((AbstractHeapType::Struct, pos + 1))
    } else if b == 0x6A {
        Ok((AbstractHeapType::Array, pos + 1))
    } else if b == 0x6C {
        Ok((AbstractHeapType::I31, pos + 1))
    } else if b == 0x69 {
        Ok((AbstractHeapType::Exn, pos + 1))
    } else if b == 0x74 {
        Ok((AbstractHeapType::NoExn, pos + 1))
    } else if b == 0x68 || b == 0x75 {
        Err(Error::UnsupportedFeature(Unsupported::ContinuationType))
    } else if b < 0x40 || b >= 0x80 {
        // A non-negative number here is an index into the type section: a
        // concrete heap type.
        Err(Error::UnsupportedFeature(Unsupported::ConcreteHeapType))
    } else {
        Err(Error::MalformedInput { offset: pos })
    };
    r
}

/// Reads one value type, accepting exactly the canonical encodings of the
/// encodable value types: whenever the bytes at `pos` start with the
/// encoding of `v`, decoding returns that `v` — the decoding direction of
/// the round trip.
pub fn decode_val_type(bytes: &[u8], pos: usize) -> (r: Result<(ValType, usize), Error>)
    ensures
        match r {
            Ok((v, p2)) => pos < p2 <= bytes@.len() && val_type_encodable(v) && bytes@.subrange(
                pos as int,
                p2 as int,
            ) == spec_val_type_bytes(v),
            Err(e) => e is MalformedInput || e is UnsupportedFeature,
        },
        forall|v: ValType|
            (val_type_encodable(v) && pos + spec_val_type_bytes(v).len() <= bytes@.len()
                && bytes@.subrange(pos as int, pos + spec_val_type_bytes(v).len())
                == spec_val_type_bytes(v)) ==> r == Ok::<(ValType, usize), Error>(
                (v, (pos + spec_val_type_bytes(v).len()) as usize),
            ),
{
    if pos >= bytes.len() {
        return Err(Error::MalformedInput { offset: pos });
    }
    let b = bytes[pos];
    proof {
        assert(bytes@.subrange(pos as int, pos as int + 1) =~= seq![b]);
    }
    let r: Result<(ValType, usize), Error> = if b == 0x7F {
        Ok((ValType::I32, pos + 1))
    } else if b == 0x7E {
        Ok((ValType::I64, pos + 1))
    } else if b == 0x7D {
        Ok((ValType::F32, pos + 1))
    } else if b == 0x7C {
        Ok((ValType::F64, pos + 1))
    } else if b == 0x7B {
        Ok((ValType::V128, pos + 1))
    } else if b == 0x64 {
        match decode_heap_type(bytes, pos + 1) {
            Ok((a, p2)) => {
                proof {
                    assert(bytes@.subrange(pos as int, p2 as int) =~= seq![
                        0x64u8,
                        spec_abs_heap_code(a),
                    ]);
                }
                Ok(
                    (
                        ValType::Ref(
                            RefType { nullable: false, heap_type: HeapType::Abstract(a) },
                        ),
                        p2,
                    ),
                )
            },
            Err(e) => Err(e),
        }
    } else if b == 0x63 {
        // The long nullable form: a nullable abstract reference is always
        // written in its one-byte shorthand, so whatever follows here is
        // either a rejected heap type or a non-canonical encoding.
        match decode_heap_type(bytes, pos + 1) {
            Ok((_, _)) => Err(Error::MalformedInput { offset: pos }),
            Err(e) => Err(e),
        }
    } else {
        match decode_heap_type(bytes, pos) {
            Ok((a, p2)) => Ok(
                (ValType::Ref(RefType { nullable: true, heap_type: HeapType::Abstract(a) }), p2),
            ),
            Err(e) => Err(e),
        }
    };
    proof {
        assert forall|v: ValType|
            (val_type_encodable(v) && pos + spec_val_type_bytes(v).len() <= bytes@.len()
                && bytes@.subrange(pos as int, pos + spec_val_type_bytes(v).len())
                == spec_val_type_bytes(v)) implies r == Ok::<(ValType, usize), Error>(
            (v, (pos + spec_val_type_bytes(v).len()) as usize),
        ) by {
            let e = spec_val_type_bytes(v);
            assert(e[0] == bytes@[pos as int]);
            match v {
                ValType::Ref(t) => {
                    match t.heap_type {
                        HeapType::Abstract(a) => {
                            if t.nullable {
                                assert(e =~= seq![spec_abs_heap_code(a)]);
                            } else {
                                assert(e =~= seq![0x64u8, spec_abs_heap_code(a)]);
                                assert(bytes@[pos as int + 1] == spec_abs_heap_code(a));
                            }
                        },
                        HeapType::Concrete(_) => {},
                    }
                },
                _ => {},
            }
        }
    }
    r
}

/// The byte-level schema is deterministic: no two encodable value types
/// share an encoding.
pub proof fn lemma_val_type_encoding_injective(a: ValType, b: ValType)
    requires
        val_type_encodable(a),
        val_type_encodable(b),
        spec_val_type_bytes(a) == spec_val_type_bytes(b),
    ensures
        a == b,
{
    let ea = spec_val_type_bytes(a);
    let eb = spec_val_type_bytes(b);
    assert(ea[0] == eb[0]);
    if ea.len() == 2 {
        assert(ea[1] == eb[1]);
    }
    match a {
        ValType::Ref(ta) => {
            match ta.heap_type {
                HeapType::Abstract(x) => {
                    lemma_abs_code_range(x);
                    if ta.nullable {
                        assert(ea == seq![spec_abs_heap_code(x)]);
                        assert(ea[0] == spec_abs_heap_code(x));
                    } else {
                        assert(ea == seq![0x64u8, spec_abs_heap_code(x)]);
                        assert(ea[0] == 0x64u8 && ea[1] == spec_abs_heap_code(x));
                    }
                },
                HeapType::Concrete(_) => {},
            }
        },
        ValType::I32 => {
            assert(ea == seq![0x7Fu8]);
            assert(ea[0] == 0x7Fu8);
        },
        ValType::I64 => {
            assert(ea == seq![0x7Eu8]);
            assert(ea[0] == 0x7Eu8);
        },
        ValType::F32 => {
            assert(ea == seq![0x7Du8]);
            assert(ea[0] == 0x7Du8);
        },
        ValType::F64 => {
            assert(ea == seq![0x7Cu8]);
            assert(ea[0] == 0x7Cu8);
        },
        ValType::V128 => {
            assert(ea == seq![0x7Bu8]);
            assert(ea[0] == 0x7Bu8);
        },
    }
    match b {
        ValType::Ref(tb) => {
            match tb.heap_type {
                HeapType::Abstract(y) => {
                    lemma_abs_code_range(y);
                    if tb.nullable {
                        assert(eb == seq![spec_abs_heap_code(y)]);
                        assert(eb[0] == spec_abs_heap_code(y));
                    } else {
                        assert(eb == seq![0x64u8, spec_abs_heap_code(y)]);
                        assert(eb[0] == 0x64u8 && eb[1] == spec_abs_heap_code(y));
                    }
                },
                HeapType::Concrete(_) => {},
            }
        },
        ValType::I32 => {
            assert(eb == seq![0x7Fu8]);
            assert(eb[0] == 0x7Fu8);
        },
        ValType::I64 => {
            assert(eb == seq![0x7Eu8]);
            assert(eb[0] == 0x7Eu8);
        },
        ValType::F32 => {
            assert(eb == seq![0x7Du8]);
            assert(eb[0] == 0x7Du8);
        },
        ValType::F64 => {
            assert(eb == seq![0x7Cu8]);
            assert(eb[0] == 0x7Cu8);
        },
        ValType::V128 => {
            assert(eb == seq![0x7Bu8]);
            assert(eb[0] == 0x7Bu8);
        },
    }
    match (a, b) {
        (ValType::Ref(ta), ValType::Ref(tb)) => {
            match (ta.heap_type, tb.heap_type) {
                (HeapType::Abstract(x), HeapType::Abstract(y)) => {
                    if ta.nullable && tb.nullable {
                        assert(ea[0] == spec_abs_heap_code(x));
                        assert(eb[0] == spec_abs_heap_code(y));
                        lemma_abs_code_distinct(x, y);
                        assert(a == b);
                    } else if !ta.nullable && !tb.nullable {
                        assert(ea[1] == spec_abs_heap_code(x));
                        assert(eb[1] == spec_abs_heap_code(y));
                        assert(ea[1] == eb[1]);
                        lemma_abs_code_distinct(x, y);
                        assert(a == b);
                    } else {
                        assert(ea.len() != eb.len());
                        assert(false);
                    }
                },
                _ => {},
            }
        },
        _ => {},
    }
}

/// Every abstract heap-type code lies in one byte range, apart from every
/// value-type code.
pub proof fn lemma_abs_code_range(a: AbstractHeapType)
    ensures
        0x69 <= spec_abs_heap_code(a) <= 0x74,
{
    match a {
        AbstractHeapType::Func => assert(spec_abs_heap_code(a) == 0x70),
        AbstractHeapType::Extern => assert(spec_abs_heap_code(a) == 0x6F),
        AbstractHeapType::Any => assert(spec_abs_heap_code(a) == 0x6E),
        AbstractHeapType::NoneType => assert(spec_abs_heap_code(a) == 0x71),
        AbstractHeapType::NoExtern => assert(spec_abs_heap_code(a) == 0x72),
        AbstractHeapType::NoFunc => assert(spec_abs_heap_code(a) == 0x73),
        AbstractHeapType::Eq => assert(spec_abs_heap_code(a) == 0x6D),
        AbstractHeapType::Struct => assert(spec_abs_heap_code(a) == 0x6B),
        AbstractHeapType::Array => assert(spec_abs_heap_code(a) == 0x6A),
        AbstractHeapType::I31 => assert(spec_abs_heap_code(a) == 0x6C),
        AbstractHeapType::Exn => assert(spec_abs_heap_code(a) == 0x69),
        AbstractHeapType::NoExn => assert(spec_abs_heap_code(a) == 0x74),
    }
}


/// Whether every member of a value-type list has an encoding.
pub open spec fn val_types_encodable(vs: Seq<ValType>) -> bool {
    forall|i: int| 0 <= i < vs.len() ==> val_type_encodable(#[trigger] vs[i])
}

/// The concatenated encodings of a list of value types.
pub open spec fn spec_val_types_concat(vs: Seq<ValType>) -> Seq<u8>
    decreases vs.len(),
{
    if vs.len() == 0 {
        Seq::empty()
    } else {
        spec_val_type_bytes(vs[0]) + spec_val_types_concat(vs.drop_first())
    }
}

/// The encoding of a value-type vector: its count, then each type.
pub open spec fn spec_val_types_bytes(vs: Seq<ValType>) -> Seq<u8> {
    spec_leb_u64(vs.len() as nat) + spec_val_types_concat(vs)
}

/// Appending one more value type extends the concatenated encoding by its
/// encoding.
pub proof fn lemma_val_types_concat_snoc(vs: Seq<ValType>, i: int)
    requires
        0 <= i < vs.len(),
    ensures
        spec_val_types_concat(vs.take(i + 1)) == spec_val_types_concat(vs.take(i))
            + spec_val_type_bytes(vs[i]),
    decreases i,
{
    if i == 0 {
        assert(vs.take(1) =~= seq![vs[0]]);
        assert(vs.take(1).drop_first() =~= Seq::<ValType>::empty());
        assert(vs.take(0) =~= Seq::<ValType>::empty());
        assert(spec_val_types_concat(vs.take(1)) =~= spec_val_types_concat(vs.take(0))
            + spec_val_type_bytes(vs[0]));
    } else {
        let tail = vs.drop_first();
        lemma_val_types_concat_snoc(tail, i - 1);
        assert(vs.take(i + 1).drop_first() =~= tail.take(i));
        assert(vs.take(i).drop_first() =~= tail.take(i - 1));
        assert(vs.take(i + 1)[0] == vs[0]);
        assert(vs.take(i)[0] == vs[0]);
        assert(tail[i - 1] == vs[i]);
        assert(spec_val_types_concat(vs.take(i + 1)) =~= spec_val_types_concat(vs.take(i))
            + spec_val_type_bytes(vs[i]));
    }
}

/// When the bytes at `pos` start with the concatenated encoding of a
/// non-empty list, they start with the encoding of its first member, and
/// the rest follows immediately after.
proof fn lemma_val_types_concat_prefix(bytes: Seq<u8>, pos: int, vs: Seq<ValType>)
    requires
        0 <= pos,
        vs.len() > 0,
        pos + spec_val_types_concat(vs).len() <= bytes.len(),
        bytes.subrange(pos, pos + spec_val_types_concat(vs).len()) == spec_val_types_concat(vs),
    ensures
        pos + spec_val_type_bytes(vs[0]).len() <= bytes.len(),
        bytes.subrange(pos, pos + spec_val_type_bytes(vs[0]).len()) == spec_val_type_bytes(vs[0]),
        pos + spec_val_type_bytes(vs[0]).len() + spec_val_types_concat(vs.drop_first()).len()
            <= bytes.len(),
        bytes.subrange(
            pos + spec_val_type_bytes(vs[0]).len(),
            pos + spec_val_type_bytes(vs[0]).len() + spec_val_types_concat(
                vs.drop_first(),
            ).len(),
        ) == spec_val_types_concat(vs.drop_first()),
{
    let e = spec_val_type_bytes(vs[0]);
    let rest = spec_val_types_concat(vs.drop_first());
    let whole = spec_val_types_concat(vs);
    assert(whole == e + rest);
    assert(bytes.subrange(pos, pos + e.len() as int) =~= e) by {
        assert forall|i: int| 0 <= i < e.len() implies #[trigger] bytes.subrange(
            pos,
            pos + e.len() as int,
        )[i] == e[i] by {
            assert(bytes[pos + i] == whole[i]);
            assert(whole[i] == e[i]);
        }
    }
    assert(bytes.subrange(pos + e.len(), pos + e.len() + rest.len() as int) =~= rest) by {
        assert forall|i: int| 0 <= i < rest.len() implies #[trigger] bytes.subrange(
            pos + e.len(),
            pos + e.len() + rest.len() as int,
        )[i] == rest[i] by {
            assert(bytes[pos + e.len() + i] == whole[e.len() + i]);
            assert(whole[e.len() + i] == rest[i]);
        }
    }
}

/// Reads `n` value types in a row, accepting exactly the concatenated
/// canonical encodings.
fn read_val_types_n(bytes: &[u8], pos: usize, n: u32) -> (r: Result<(Vec<ValType>, usize), Error>)
    requires
        pos <= bytes@.len(),
    ensures
        match r {
            Ok((vs, p2)) => pos <= p2 <= bytes@.len() && vs@.len() == n && val_types_encodable(
                vs@,
            ) && bytes@.subrange(pos as int, p2 as int) == spec_val_types_concat(vs@),
            Err(e) => e is MalformedInput || e is UnsupportedFeature,
        },
        forall|vs: Seq<ValType>|
            (vs.len() == n && val_types_encodable(vs) && pos + spec_val_types_concat(vs).len()
                <= bytes@.len() && bytes@.subrange(
                pos as int,
                pos + spec_val_types_concat(vs).len(),
            ) == spec_val_types_concat(vs)) ==> (r is Ok && r->Ok_0.0@ == vs && r->Ok_0.1 == pos
                + spec_val_types_concat(vs).len()),
    decreases n,
{
    if n == 0 {
        let out: Vec<ValType> = Vec::new();
        proof {
            assert(out@ =~= Seq::<ValType>::empty());
            assert(bytes@.subrange(pos as int, pos as int) =~= Seq::<u8>::empty());
            assert forall|vs: Seq<ValType>|
                (vs.len() == 0 && val_types_encodable(vs) && pos + spec_val_types_concat(
                    vs,
                ).len() <= bytes@.len() && bytes@.subrange(
                    pos as int,
                    pos + spec_val_types_concat(vs).len(),
                ) == spec_val_types_concat(vs)) implies out@ == vs && pos as int == pos
                + spec_val_types_concat(vs).len() by {
                assert(vs =~= Seq::<ValType>::empty());
            }
        }
        return Ok((out, pos));
    }
    let (v, p1) = match decode_val_type(bytes, pos) {
        Ok(x) => x,
        Err(e) => {
            proof {
                assert forall|vs: Seq<ValType>|
                    (vs.len() == n && val_types_encodable(vs) && pos + spec_val_types_concat(
                        vs,
                    ).len() <= bytes@.len() && bytes@.subrange(
                        pos as int,
                        pos + spec_val_types_concat(vs).len(),
                    ) == spec_val_types_concat(vs)) implies false by {
                    lemma_val_types_concat_prefix(bytes@, pos as int, vs);
                }
            }
            return Err(e);
        },
    };
    let (mut rest, p2) = match read_val_types_n(bytes, p1, n - 1) {
        Ok(x) => x,
        Err(e) => {
            proof {
                assert forall|vs: Seq<ValType>|
                    (vs.len() == n && val_types_encodable(vs) && pos + spec_val_types_concat(
                        vs,
                    ).len() <= bytes@.len() && bytes@.subrange(
                        pos as int,
                        pos + spec_val_types_concat(vs).len(),
                    ) == spec_val_types_concat(vs)) implies false by {
                    lemma_val_types_concat_prefix(bytes@, pos as int, vs);
                }
            }
            return Err(e);
        },
    };
    let ghost rest0 = rest@;
    let mut out: Vec<ValType> = Vec::new();
    out.push(v);
    out.append(&mut rest);
    proof {
        assert(out@ =~= seq![v] + rest0);
        assert(out@[0] == v && out@.drop_first() =~= rest0);
        assert(spec_val_types_concat(out@) == spec_val_type_bytes(v) + spec_val_types_concat(
            rest0,
        ));
        assert(bytes@.subrange(pos as int, p2 as int) =~= bytes@.subrange(pos as int, p1 as int)
            + bytes@.subrange(p1 as int, p2 as int));
        assert forall|vs: Seq<ValType>|
            (vs.len() == n && val_types_encodable(vs) && pos + spec_val_types_concat(vs).len()
                <= bytes@.len() && bytes@.subrange(
                pos as int,
                pos + spec_val_types_concat(vs).len(),
            ) == spec_val_types_concat(vs)) implies out@ == vs && p2 == pos
            + spec_val_types_concat(vs).len() by {
            lemma_val_types_concat_prefix(bytes@, pos as int, vs);
            assert(vs[0] == v && p1 == pos + spec_val_type_bytes(vs[0]).len());
            assert(rest0 == vs.drop_first());
            assert(vs =~= seq![vs[0]] + vs.drop_first());
        }
    }
    Ok((out, p2))
}

/// Reads a vector of value types — the count, then each type — accepting
/// exactly the canonical encoding `spec_val_types_bytes`: the decoding
/// direction of the signature round trip.
pub fn read_val_types(bytes: &[u8], pos: usize) -> (r: Result<(Vec<ValType>, usize), Error>)
    ensures
        match r {
            Ok((vs, p2)) => pos < p2 <= bytes@.len() && val_types_encodable(vs@)
                && bytes@.subrange(pos as int, p2 as int) == spec_val_types_bytes(vs@),
            Err(e) => e is MalformedInput || e is UnsupportedFeature,
        },
        forall|vs: Seq<ValType>|
            (vs.len() <= u32::MAX && val_types_encodable(vs) && pos + spec_val_types_bytes(
                vs,
            ).len() <= bytes@.len() && bytes@.subrange(
                pos as int,
                pos + spec_val_types_bytes(vs).len(),
            ) == spec_val_types_bytes(vs)) ==> (r is Ok && r->Ok_0.0@ == vs && r->Ok_0.1 == pos
                + spec_val_types_bytes(vs).len()),
{
    let (count, p2) = match read_leb_u32(bytes, pos) {
        Ok(x) => x,
        Err(e) => {
            proof {
                assert forall|vs: Seq<ValType>|
                    (vs.len() <= u32::MAX && val_types_encodable(vs) && pos
                        + spec_val_types_bytes(vs).len() <= bytes@.len() && bytes@.subrange(
                        pos as int,
                        pos + spec_val_types_bytes(vs).len(),
                    ) == spec_val_types_bytes(vs)) implies false by {
                    lemma_val_types_bytes_split(bytes@, pos as int, vs);
                }
            }
            return Err(e);
        },
    };
    match read_val_types_n(bytes, p2, count) {
        Ok((vs, p3)) => {
            proof {
                assert(bytes@.subrange(pos as int, p3 as int) =~= bytes@.subrange(
                    pos as int,
                    p2 as int,
                ) + bytes@.subrange(p2 as int, p3 as int));
                assert forall|ws: Seq<ValType>|
                    (ws.len() <= u32::MAX && val_types_encodable(ws) && pos
                        + spec_val_types_bytes(ws).len() <= bytes@.len() && bytes@.subrange(
                        pos as int,
                        pos + spec_val_types_bytes(ws).len(),
                    ) == spec_val_types_bytes(ws)) implies vs@ == ws && p3 == pos
                    + spec_val_types_bytes(ws).len() by {
                    lemma_val_types_bytes_split(bytes@, pos as int, ws);
                }
            }
            Ok((vs, p3))
        },
        Err(e) => {
            proof {
                assert forall|vs: Seq<ValType>|
                    (vs.len() <= u32::MAX && val_types_encodable(vs) && pos
                        + spec_val_types_bytes(vs).len() <= bytes@.len() && bytes@.subrange(
                        pos as int,
                        pos + spec_val_types_bytes(vs).len(),
                    ) == spec_val_types_bytes(vs)) implies false by {
                    lemma_val_types_bytes_split(bytes@, pos as int, vs);
                }
            }
            Err(e)
        },
    }
}

/// When the bytes at `pos` start with the encoding of a value-type vector,
/// they start with the canonical count, followed by the concatenated member
/// encodings.
proof fn lemma_val_types_bytes_split(bytes: Seq<u8>, pos: int, vs: Seq<ValType>)
    requires
        0 <= pos,
        pos + spec_val_types_bytes(vs).len() <= bytes.len(),
        bytes.subrange(pos, pos + spec_val_types_bytes(vs).len()) == spec_val_types_bytes(vs),
    ensures
        pos + spec_leb_u64(vs.len() as nat).len() <= bytes.len(),
        bytes.subrange(pos, pos + spec_leb_u64(vs.len() as nat).len()) == spec_leb_u64(
            vs.len() as nat,
        ),
        pos + spec_leb_u64(vs.len() as nat).len() + spec_val_types_concat(vs).len()
            <= bytes.len(),
        bytes.subrange(
            pos + spec_leb_u64(vs.len() as nat).len(),
            pos + spec_leb_u64(vs.len() as nat).len() + spec_val_types_concat(vs).len(),
        ) == spec_val_types_concat(vs),
{
    let c = spec_leb_u64(vs.len() as nat);
    let rest = spec_val_types_concat(vs);
    let whole = spec_val_types_bytes(vs);
    assert(whole == c + rest);
    assert(bytes.subrange(pos, pos + c.len() as int) =~= c) by {
        assert forall|i: int| 0 <= i < c.len() implies #[trigger] bytes.subrange(
            pos,
            pos + c.len() as int,
        )[i] == c[i] by {
            assert(bytes[pos + i] == whole[i]);
            assert(whole[i] == c[i]);
        }
    }
    assert(bytes.subrange(pos + c.len(), pos + c.len() + rest.len() as int) =~= rest) by {
        assert forall|i: int| 0 <= i < rest.len() implies #[trigger] bytes.subrange(
            pos + c.len(),
            pos + c.len() + rest.len() as int,
        )[i] == rest[i] by {
            assert(bytes[pos + c.len() + i] == whole[c.len() + i]);
            assert(whole[c.len() + i] == rest[i]);
        }
    }
}


/// The emitted body of one function type: the function-type form byte,
/// then the parameter and result vectors.
pub open spec fn spec_func_type_bytes(k: TypeKey) -> Seq<u8> {
    seq![0x60u8] + spec_val_types_bytes(k.params) + spec_val_types_bytes(k.results)
}

/// Whether a slot of the type store appears in the emitted type section:
/// live, and not an internal function-entry signature.
pub open spec fn emitted_type(e: Option<TypeKey>) -> bool {
    match e {
        Some(k) => !k.is_for_function_entry,
        None => false,
    }
}

/// How many slots of the store are emitted.
pub open spec fn spec_emitted_count(entries: Seq<Option<TypeKey>>) -> nat
    decreases entries.len(),
{
    if entries.len() == 0 {
        0
    } else {
        spec_emitted_count(entries.drop_last()) + if emitted_type(entries.last()) {
            1nat
        } else {
            0nat
        }
    }
}

/// The concatenated bodies of the emitted slots, in slot order; tombstoned
/// slots and function-entry signatures contribute nothing.
pub open spec fn spec_type_entries_bytes(entries: Seq<Option<TypeKey>>) -> Seq<u8>
    decreases entries.len(),
{
    if entries.len() == 0 {
        Seq::empty()
    } else {
        spec_type_entries_bytes(entries.drop_last()) + (match entries.last() {
            Some(k) => if !k.is_for_function_entry {
                spec_func_type_bytes(k)
            } else {
                Seq::empty()
            },
            None => Seq::empty(),
        })
    }
}

/// The complete emitted type section of a type store: the section id, the
/// content size, the count of emitted entries, and their bodies — with
/// tombstoned slots and function-entry signatures left out.
pub open spec fn spec_type_section(entries: Seq<Option<TypeKey>>) -> Seq<u8> {
    let content = spec_leb_u64(spec_emitted_count(entries)) + spec_type_entries_bytes(entries);
    seq![1u8] + spec_leb_u64(content.len() as nat) + content
}

} // verus!
