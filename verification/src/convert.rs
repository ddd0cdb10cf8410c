//! Conversions between the internal type model and the types of the
//! wasm-encoder and wasmparser crates.

use vstd::prelude::*;

use wasm_encoder::AbstractHeapType as EncAbstractHeapType;
use wasm_encoder::HeapType as EncHeapType;
use wasm_encoder::RefType as EncRefType;
use wasm_encoder::ValType as EncValType;
use wasmparser::AbstractHeapType as ParserAbstractHeapType;
use wasmparser::HeapType as ParserHeapType;
use wasmparser::RefType as ParserRefType;
use wasmparser::UnpackedIndex as ParserUnpackedIndex;
use wasmparser::ValType as ParserValType;

use crate::error::{Error, Unsupported};
use crate::ty::{AbstractHeapType, HeapType, RefType, ValType};

verus! {

#[verifier::external_type_specification]
pub struct ExEncAbstractHeapType(EncAbstractHeapType);

#[verifier::external_type_specification]
pub struct ExEncHeapType(EncHeapType);

#[verifier::external_type_specification]
pub struct ExEncRefType(EncRefType);

#[verifier::external_type_specification]
pub struct ExEncValType(EncValType);

#[verifier::external_type_specification]
#[verifier::external_body]
pub struct ExParserRefType(ParserRefType);

#[verifier::external_type_specification]
#[verifier::external_body]
pub struct ExParserUnpackedIndex(ParserUnpackedIndex);

#[verifier::external_type_specification]
pub struct ExParserAbstractHeapType(ParserAbstractHeapType);

#[verifier::external_type_specification]
pub struct ExParserHeapType(ParserHeapType);

#[verifier::external_type_specification]
pub struct ExParserValType(ParserValType);

/// The nullability bit packed inside a wasmparser reference type: a
/// function of the value alone.
pub uninterp spec fn parser_ref_type_nullable(r: ParserRefType) -> bool;

/// The heap type packed inside a wasmparser reference type: a function of
/// the value alone.
pub uninterp spec fn parser_ref_type_heap(r: ParserRefType) -> ParserHeapType;

/// Relies on wasmparser's RefType::is_nullable: a bit test on the packed
/// representation, depending on the value alone.
pub assume_specification[ ParserRefType::is_nullable ](r: &ParserRefType) -> (b: bool)
    ensures
        b == parser_ref_type_nullable(*r),
;

/// Relies on wasmparser's RefType::heap_type: unpacking the packed bits,
/// depending on the value alone.
pub assume_specification[ ParserRefType::heap_type ](r: &ParserRefType) -> (h: ParserHeapType)
    ensures
        h == parser_ref_type_heap(*r),
;

impl AbstractHeapType {
    /// The wasm-encoder form of this abstract heap type.
    pub open spec fn spec_to_wasmencoder(self) -> EncAbstractHeapType {
        match self {
            AbstractHeapType::Func => EncAbstractHeapType::Func,
            AbstractHeapType::Extern => EncAbstractHeapType::Extern,
            AbstractHeapType::Any => EncAbstractHeapType::Any,
            AbstractHeapType::NoneType => EncAbstractHeapType::None,
            AbstractHeapType::NoExtern => EncAbstractHeapType::NoExtern,
            AbstractHeapType::NoFunc => EncAbstractHeapType::NoFunc,
            AbstractHeapType::Eq => EncAbstractHeapType::Eq,
            AbstractHeapType::Struct => EncAbstractHeapType::Struct,
            AbstractHeapType::Array => EncAbstractHeapType::Array,
            AbstractHeapType::I31 => EncAbstractHeapType::I31,
            AbstractHeapType::Exn => EncAbstractHeapType::Exn,
            AbstractHeapType::NoExn => EncAbstractHeapType::NoExn,
        }
    }

    /// Convert to the wasm-encoder abstract heap type.
    pub fn to_wasmencoder_type(self) -> (r: EncAbstractHeapType)
        ensures
            r == self.spec_to_wasmencoder(),
    {
        match self {
            AbstractHeapType::Func => EncAbstractHeapType::Func,
            AbstractHeapType::Extern => EncAbstractHeapType::Extern,
            AbstractHeapType::Any => EncAbstractHeapType::Any,
            AbstractHeapType::NoneType => EncAbstractHeapType::None,
            AbstractHeapType::NoExtern => EncAbstractHeapType::NoExtern,
            AbstractHeapType::NoFunc => EncAbstractHeapType::NoFunc,
            AbstractHeapType::Eq => EncAbstractHeapType::Eq,
            AbstractHeapType::Struct => EncAbstractHeapType::Struct,
            AbstractHeapType::Array => EncAbstractHeapType::Array,
            AbstractHeapType::I31 => EncAbstractHeapType::I31,
            AbstractHeapType::Exn => EncAbstractHeapType::Exn,
            AbstractHeapType::NoExn => EncAbstractHeapType::NoExn,
        }
    }

    /// The internal form of a wasmparser abstract heap type; nothing for
    /// the continuation-related types, which are rejected, never mapped.
    pub open spec fn spec_from_wasmparser(a: ParserAbstractHeapType) -> Option<
        AbstractHeapType,
    > {
        match a {
            ParserAbstractHeapType::Func => Some(AbstractHeapType::Func),
            ParserAbstractHeapType::Extern => Some(AbstractHeapType::Extern),
            ParserAbstractHeapType::Any => Some(AbstractHeapType::Any),
            ParserAbstractHeapType::None => Some(AbstractHeapType::NoneType),
            ParserAbstractHeapType::NoExtern => Some(AbstractHeapType::NoExtern),
            ParserAbstractHeapType::NoFunc => Some(AbstractHeapType::NoFunc),
            ParserAbstractHeapType::Eq => Some(AbstractHeapType::Eq),
            ParserAbstractHeapType::Struct => Some(AbstractHeapType::Struct),
            ParserAbstractHeapType::Array => Some(AbstractHeapType::Array),
            ParserAbstractHeapType::I31 => Some(AbstractHeapType::I31),
            ParserAbstractHeapType::Exn => Some(AbstractHeapType::Exn),
            ParserAbstractHeapType::NoExn => Some(AbstractHeapType::NoExn),
            ParserAbstractHeapType::Cont => None,
            ParserAbstractHeapType::NoCont => None,
        }
    }

    /// Convert from the wasmparser abstract heap type; a continuation type
    /// is an explicit `UnsupportedFeature`.
    pub fn try_from_wasmparser(a: ParserAbstractHeapType) -> (r: Result<
        AbstractHeapType,
        Error,
    >)
        ensures
            match r {
                Ok(h) => AbstractHeapType::spec_from_wasmparser(a) == Some(h),
                Err(e) => AbstractHeapType::spec_from_wasmparser(a) is None && e
                    == Error::UnsupportedFeature(Unsupported::ContinuationType),
            },
    {
        match a {
            ParserAbstractHeapType::Func => Ok(AbstractHeapType::Func),
            ParserAbstractHeapType::Extern => Ok(AbstractHeapType::Extern),
            ParserAbstractHeapType::Any => Ok(AbstractHeapType::Any),
            ParserAbstractHeapType::None => Ok(AbstractHeapType::NoneType),
            ParserAbstractHeapType::NoExtern => Ok(AbstractHeapType::NoExtern),
            ParserAbstractHeapType::NoFunc => Ok(AbstractHeapType::NoFunc),
            ParserAbstractHeapType::Eq => Ok(AbstractHeapType::Eq),
            ParserAbstractHeapType::Struct => Ok(AbstractHeapType::Struct),
            ParserAbstractHeapType::Array => Ok(AbstractHeapType::Array),
            ParserAbstractHeapType::I31 => Ok(AbstractHeapType::I31),
            ParserAbstractHeapType::Exn => Ok(AbstractHeapType::Exn),
            ParserAbstractHeapType::NoExn => Ok(AbstractHeapType::NoExn),
            ParserAbstractHeapType::Cont => Err(
                Error::UnsupportedFeature(Unsupported::ContinuationType),
            ),
            ParserAbstractHeapType::NoCont => Err(
                Error::UnsupportedFeature(Unsupported::ContinuationType),
            ),
        }
    }
}

impl HeapType {
    /// Convert to the wasm-encoder heap type. Only abstract heap types are
    /// convertible: no construction path yields a concrete heap type, and
    /// handing one to the encoder is an unimplemented state, so it is ruled
    /// out here rather than given invalid bytes.
    pub fn to_wasmencoder_heap_type(self) -> (r: EncHeapType)
        requires
            self is Abstract,
        ensures
            r == (EncHeapType::Abstract {
                shared: false,
                ty: self->Abstract_0.spec_to_wasmencoder(),
            }),
    {
        match self {
            HeapType::Abstract(a) => EncHeapType::Abstract {
                shared: false,
                ty: a.to_wasmencoder_type(),
            },
            HeapType::Concrete(_) => {
                proof {
                    assert(false);
                }
                EncHeapType::Abstract {
                    shared: false,
                    ty: EncAbstractHeapType::Any,
                }
            },
        }
    }

    /// The internal form of a wasmparser heap type, or the exact error
    /// owed: the shared flag is ignored, and concrete, exact and
    /// continuation heap types are each reported by name, never coerced.
    pub open spec fn spec_heap_from_wasmparser(h: ParserHeapType) -> Result<HeapType, Error> {
        match h {
            ParserHeapType::Abstract { shared: _, ty } => match AbstractHeapType::spec_from_wasmparser(
                ty,
            ) {
                Some(a) => Ok(HeapType::Abstract(a)),
                None => Err(Error::UnsupportedFeature(Unsupported::ContinuationType)),
            },
            ParserHeapType::Concrete(_) => Err(
                Error::UnsupportedFeature(Unsupported::ConcreteHeapType),
            ),
            ParserHeapType::Exact(_) => Err(
                Error::UnsupportedFeature(Unsupported::ExactHeapType),
            ),
        }
    }

    /// Convert from the wasmparser heap type: every supported input
    /// succeeds with the same-named abstract variant; concrete (indexed),
    /// exact and continuation heap types are explicit `UnsupportedFeature`
    /// outcomes naming the offending construct.
    pub fn try_from_wasmparser(h: ParserHeapType) -> (r: Result<HeapType, Error>)
        ensures
            r == HeapType::spec_heap_from_wasmparser(h),
    {
        match h {
            ParserHeapType::Abstract { shared: _, ty } => {
                match AbstractHeapType::try_from_wasmparser(ty) {
                    Ok(a) => Ok(HeapType::Abstract(a)),
                    Err(e) => Err(e),
                }
            },
            ParserHeapType::Concrete(_) => Err(
                Error::UnsupportedFeature(Unsupported::ConcreteHeapType),
            ),
            ParserHeapType::Exact(_) => Err(
                Error::UnsupportedFeature(Unsupported::ExactHeapType),
            ),
        }
    }
}

impl RefType {
    /// Convert to the wasm-encoder reference type; the heap type must be
    /// abstract.
    pub fn to_wasmencoder_ref_type(self) -> (r: EncRefType)
        requires
            self.heap_type is Abstract,
        ensures
            r.nullable == self.nullable,
            r.heap_type == (EncHeapType::Abstract {
                shared: false,
                ty: self.heap_type->Abstract_0.spec_to_wasmencoder(),
            }),
    {
        EncRefType {
            nullable: self.nullable,
            heap_type: self.heap_type.to_wasmencoder_heap_type(),
        }
    }

    /// The internal form of a wasmparser reference type, or the exact
    /// error its heap type owes.
    pub open spec fn spec_ref_from_wasmparser(rt: ParserRefType) -> Result<RefType, Error> {
        match HeapType::spec_heap_from_wasmparser(parser_ref_type_heap(rt)) {
            Ok(h) => Ok(RefType { nullable: parser_ref_type_nullable(rt), heap_type: h }),
            Err(e) => Err(e),
        }
    }

    /// Convert from the wasmparser reference type: nullability is carried
    /// over exactly, the heap type is converted, and failure occurs exactly
    /// when the heap-type conversion fails — an unsupported heap type is
    /// reported, never substituted.
    pub fn try_from_wasmparser(rt: ParserRefType) -> (r: Result<RefType, Error>)
        ensures
            r == RefType::spec_ref_from_wasmparser(rt),
    {
        let nullable = rt.is_nullable();
        match HeapType::try_from_wasmparser(rt.heap_type()) {
            Ok(h) => Ok(RefType { nullable, heap_type: h }),
            Err(e) => Err(e),
        }
    }
}

impl ValType {
    /// Convert to the wasm-encoder value type; a reference must carry an
    /// abstract heap type.
    pub fn to_wasmencoder_type(&self) -> (r: EncValType)
        requires
            crate::codec::val_type_encodable(*self),
        ensures
            match *self {
                ValType::I32 => r == EncValType::I32,
                ValType::I64 => r == EncValType::I64,
                ValType::F32 => r == EncValType::F32,
                ValType::F64 => r == EncValType::F64,
                ValType::V128 => r == EncValType::V128,
                ValType::Ref(t) => r == EncValType::Ref(
                    EncRefType {
                        nullable: t.nullable,
                        heap_type: EncHeapType::Abstract {
                            shared: false,
                            ty: t.heap_type->Abstract_0.spec_to_wasmencoder(),
                        },
                    },
                ),
            },
    {
        match self {
            ValType::I32 => EncValType::I32,
            ValType::I64 => EncValType::I64,
            ValType::F32 => EncValType::F32,
            ValType::F64 => EncValType::F64,
            ValType::V128 => EncValType::V128,
            ValType::Ref(t) => EncValType::Ref(t.to_wasmencoder_ref_type()),
        }
    }

    /// The internal form of a wasmparser value type, or the exact error
    /// its reference type owes.
    pub open spec fn spec_val_from_wasmparser(v: ParserValType) -> Result<ValType, Error> {
        match v {
            ParserValType::I32 => Ok(ValType::I32),
            ParserValType::I64 => Ok(ValType::I64),
            ParserValType::F32 => Ok(ValType::F32),
            ParserValType::F64 => Ok(ValType::F64),
            ParserValType::V128 => Ok(ValType::V128),
            ParserValType::Ref(rt) => match RefType::spec_ref_from_wasmparser(rt) {
                Ok(t) => Ok(ValType::Ref(t)),
                Err(e) => Err(e),
            },
        }
    }

    /// Convert from the wasmparser value type: the numeric types map to
    /// their namesakes, references are converted exactly, and failure
    /// occurs exactly when a reference carries a continuation, concrete or
    /// exact heap type.
    pub fn parse(input: &ParserValType) -> (r: Result<ValType, Error>)
        ensures
            r == ValType::spec_val_from_wasmparser(*input),
    {
        match input {
            ParserValType::I32 => Ok(ValType::I32),
            ParserValType::I64 => Ok(ValType::I64),
            ParserValType::F32 => Ok(ValType::F32),
            ParserValType::F64 => Ok(ValType::F64),
            ParserValType::V128 => Ok(ValType::V128),
            ParserValType::Ref(rt) => {
                match RefType::try_from_wasmparser(*rt) {
                    Ok(t) => Ok(ValType::Ref(t)),
                    Err(e) => Err(e),
                }
            },
        }
    }

    /// Convert one wasmparser value type into a one-element list, as the
    /// single result signature of a value: the element is exactly the
    /// parsed type, and failure occurs exactly when parsing fails.
    pub fn from_wasmparser_type(ty: &ParserValType) -> (r: Result<Vec<ValType>, Error>)
        ensures
            match ValType::spec_val_from_wasmparser(*ty) {
                Ok(t) => r is Ok && r->Ok_0@ == seq![t],
                Err(e) => r == Err::<Vec<ValType>, Error>(e),
            },
    {
        match ValType::parse(ty) {
            Ok(v) => {
                let mut out: Vec<ValType> = Vec::new();
                out.push(v);
                proof {
                    assert(out@ =~= seq![v]);
                }
                Ok(out)
            },
            Err(e) => Err(e),
        }
    }
}

} // verus!
