//! Tests of the type model, the interner, the byte-level schema, and the
//! error outcomes.

use walrus::codec;
use walrus::{
    AbstractHeapType, ConstExpr, Error, FunctionBuilder, HeapType, Instr, Module, ModuleConfig,
    ModuleTypes, RefType, TypeId, Unsupported, ValType, Value,
};

#[test]
fn interning_same_signature_twice_returns_same_id() {
    let mut types = ModuleTypes::new();
    let a = types.intern(&[ValType::I32], &[ValType::I64]);
    let b = types.intern(&[ValType::I32], &[ValType::I64]);
    assert_eq!(a, b);
    assert_eq!(types.len(), 1);
    let c = types.intern(&[ValType::I64], &[ValType::I32]);
    assert_ne!(a, c);
    assert_eq!(types.len(), 2);
}

#[test]
fn interning_is_structural_not_positional() {
    let mut types = ModuleTypes::new();
    let p = vec![
        ValType::Ref(RefType::i31ref()),
        ValType::F64,
    ];
    let a = types.intern(p.as_slice(), &[]);
    let q = vec![
        ValType::Ref(RefType::i31ref()),
        ValType::F64,
    ];
    let b = types.intern(q.as_slice(), &[]);
    assert_eq!(a, b);
}

#[test]
fn lookup_of_deleted_type_is_a_defined_error() {
    let mut types = ModuleTypes::new();
    let a = types.intern(&[ValType::I32], &[]);
    assert!(types.lookup(a).is_ok());
    types.delete(a);
    assert!(types.lookup(a).is_err());
    assert!(types.lookup(TypeId { index: 99 }).is_err());
    // The slot is never reused: re-interning creates a fresh id.
    let b = types.intern(&[ValType::I32], &[]);
    assert_ne!(a, b);
    assert_eq!(types.len(), 2);
}

#[test]
fn type_structural_equality_ignores_id_and_name() {
    let mut types = ModuleTypes::new();
    let a = types.intern(&[ValType::I32], &[ValType::I32]);
    let mut other = ModuleTypes::new();
    let _ = other.intern(&[ValType::F32], &[]);
    let b = other.intern(&[ValType::I32], &[ValType::I32]);
    assert_ne!(a.index, b.index);
    let ta = types.lookup(a).unwrap();
    let tb = other.lookup(b).unwrap();
    assert!(ta.structurally_equal(tb));
    let c = other.intern(&[ValType::F32], &[]);
    let tc = other.lookup(c).unwrap();
    assert!(!ta.structurally_equal(tc));
}

#[test]
fn canonical_display_shorthand_and_explicit_forms() {
    let nullable_i31 = RefType {
        nullable: true,
        heap_type: HeapType::Abstract(AbstractHeapType::I31),
    };
    assert_eq!(nullable_i31.render(), "i31ref");
    let non_null_i31 = RefType {
        nullable: false,
        heap_type: HeapType::Abstract(AbstractHeapType::I31),
    };
    assert_eq!(non_null_i31.render(), "(ref i31)");
    assert_eq!(RefType::anyref().render(), "anyref");
    assert_eq!(RefType::nullref().render(), "nullref");
    assert_eq!(RefType::nullexternref().render(), "nullexternref");
    assert_eq!(
        RefType { nullable: true, heap_type: HeapType::Concrete(7) }.render(),
        "(ref null 7)",
    );
    assert_eq!(
        RefType { nullable: false, heap_type: HeapType::Concrete(1042) }.render(),
        "(ref 1042)",
    );
    assert_eq!(ValType::I32.render(), "i32");
    assert_eq!(ValType::V128.render(), "v128");
    assert_eq!(ValType::Ref(RefType::funcref()).render(), "funcref");
}

#[test]
fn non_nullable_cast_result_is_not_the_nullable_alias() {
    let cast = Instr::RefCast {
        nullable: false,
        heap: HeapType::Abstract(AbstractHeapType::I31),
    };
    let result = cast.cast_result().unwrap();
    assert_eq!(
        result,
        RefType { nullable: false, heap_type: HeapType::Abstract(AbstractHeapType::I31) },
    );
    assert_ne!(result, RefType::i31ref());
    assert!(!result.is_nullable());
}

#[test]
fn br_on_cast_edge_types_follow_the_destination_exactly() {
    let seq = walrus::InstrSeqId { index: 3 };
    let instr = Instr::BrOnCast {
        seq,
        from_nullable: true,
        from_heap: HeapType::Abstract(AbstractHeapType::Any),
        to_nullable: false,
        to_heap: HeapType::Abstract(AbstractHeapType::I31),
    };
    assert_eq!(
        instr.branch_carried().unwrap(),
        RefType { nullable: false, heap_type: HeapType::Abstract(AbstractHeapType::I31) },
    );
    assert_eq!(instr.fallthrough_carried().unwrap(), RefType::anyref());

    let fail = Instr::BrOnCastFail {
        seq,
        from_nullable: true,
        from_heap: HeapType::Abstract(AbstractHeapType::Any),
        to_nullable: false,
        to_heap: HeapType::Abstract(AbstractHeapType::I31),
    };
    assert_eq!(fail.branch_carried().unwrap(), RefType::anyref());
    assert_eq!(
        fail.fallthrough_carried().unwrap(),
        RefType { nullable: false, heap_type: HeapType::Abstract(AbstractHeapType::I31) },
    );
}

#[test]
fn decoding_a_concrete_heap_type_is_unsupported() {
    // Header, then a type section declaring one function type whose single
    // parameter is `(ref null 0)`: a reference to type-section index zero.
    let bytes = vec![
        0x00, 0x61, 0x73, 0x6D, 0x01, 0x00, 0x00, 0x00, // header
        0x01, 0x06, // type section, six bytes
        0x01, // one entry
        0x60, // function type
        0x01, 0x63, 0x00, // one param: (ref null 0)
        0x00, // no results
    ];
    let r = Module::from_buffer(&bytes);
    assert_eq!(
        r.err().unwrap(),
        Error::UnsupportedFeature(Unsupported::ConcreteHeapType),
    );
}

#[test]
fn decoding_a_continuation_type_is_unsupported() {
    let bytes = vec![
        0x00, 0x61, 0x73, 0x6D, 0x01, 0x00, 0x00, 0x00, // header
        0x01, 0x05, // type section, five bytes
        0x01, // one entry
        0x60, // function type
        0x01, 0x68, // one param: contref shorthand
        0x00, // no results
    ];
    let r = Module::from_buffer(&bytes);
    assert_eq!(
        r.err().unwrap(),
        Error::UnsupportedFeature(Unsupported::ContinuationType),
    );
}

#[test]
fn decoding_an_unmodeled_section_is_unsupported() {
    let bytes = vec![
        0x00, 0x61, 0x73, 0x6D, 0x01, 0x00, 0x00, 0x00, // header
        0x05, 0x01, 0x00, // memory section
    ];
    let r = Module::from_buffer(&bytes);
    assert_eq!(r.err().unwrap(), Error::UnsupportedFeature(Unsupported::Section));
}

#[test]
fn decoding_a_composite_type_is_unsupported() {
    let bytes = vec![
        0x00, 0x61, 0x73, 0x6D, 0x01, 0x00, 0x00, 0x00, // header
        0x01, 0x02, // type section
        0x01, // one entry
        0x5F, // struct type
    ];
    let r = Module::from_buffer(&bytes);
    assert_eq!(r.err().unwrap(), Error::UnsupportedFeature(Unsupported::CompositeType));
}

#[test]
fn decoding_truncated_bytes_is_malformed() {
    let r = Module::from_buffer(&[0x00, 0x61, 0x73]);
    assert_eq!(r.err().unwrap(), Error::MalformedInput { offset: 0 });
    let r2 = Module::from_buffer(&[
        0x00, 0x61, 0x73, 0x6D, 0x01, 0x00, 0x00, 0x00, 0x01,
    ]);
    assert!(matches!(r2.err().unwrap(), Error::MalformedInput { .. }));
}

#[test]
fn encoding_a_concrete_heap_type_is_unimplemented() {
    let mut module = Module::with_config(ModuleConfig::new());
    let mut builder = FunctionBuilder::new(
        &mut module.types,
        &[ValType::Ref(RefType::anyref())],
        &[ValType::I32],
    );
    let arg = module.locals.add(ValType::Ref(RefType::anyref()));
    let body = builder.func_body();
    builder.local_get(body, arg);
    builder.ref_test(body, true, HeapType::Concrete(0));
    let _ = builder.finish(vec![arg], &mut module.funcs).unwrap();
    assert_eq!(module.emit_wasm().err().unwrap(), Error::Unimplemented);
}

#[test]
fn finish_rejects_a_dangling_sequence_never_attached() {
    let mut module = Module::with_config(ModuleConfig::new());
    let mut builder = FunctionBuilder::new(&mut module.types, &[], &[ValType::I32]);
    let body = builder.func_body();
    builder.i32_const(body, 7);
    // Created, filled, and never referenced by any block or loop.
    let stray = builder.dangling_instr_seq(Some(ValType::I32));
    builder.i32_const(stray, 8);
    let r = builder.finish(vec![], &mut module.funcs);
    assert_eq!(r.err().unwrap(), Error::BuilderMisuse);
    // Nothing was inserted.
    assert_eq!(module.funcs.len(), 0);
}

#[test]
fn finish_rejects_a_sequence_attached_twice() {
    let mut module = Module::with_config(ModuleConfig::new());
    let mut builder = FunctionBuilder::new(&mut module.types, &[], &[]);
    let inner = builder.dangling_instr_seq(None);
    let body = builder.func_body();
    builder.instr(body, Instr::Block { seq: inner });
    builder.instr(body, Instr::Block { seq: inner });
    let r = builder.finish(vec![], &mut module.funcs);
    assert_eq!(r.err().unwrap(), Error::BuilderMisuse);
}

#[test]
fn unsigned_leb_round_trips() {
    let values: Vec<u64> = vec![0, 1, 63, 64, 127, 128, 129, 624485, u32::MAX as u64, u64::MAX];
    for v in values {
        let mut out: Vec<u8> = Vec::new();
        codec::write_leb_u64(&mut out, v);
        let (back, p) = codec::read_leb_u64(out.as_slice(), 0).unwrap();
        assert_eq!(back, v);
        assert_eq!(p, out.len());
    }
    let mut out: Vec<u8> = Vec::new();
    codec::write_leb_u64(&mut out, 624485);
    assert_eq!(out, vec![0xE5, 0x8E, 0x26]);
    // A redundant continuation is rejected as non-canonical.
    assert!(codec::read_leb_u64(&[0x80, 0x00], 0).is_err());
}

#[test]
fn signed_leb_round_trips() {
    let values: Vec<i64> = vec![0, 1, -1, 42, -42, 63, -64, 64, -65, -123456, 2147483647,
        -2147483648];
    for v in values {
        let mut out: Vec<u8> = Vec::new();
        codec::write_sleb(&mut out, v);
        let (back, p) = codec::read_sleb(out.as_slice(), 0).unwrap();
        assert_eq!(back, v);
        assert_eq!(p, out.len());
    }
    let mut out: Vec<u8> = Vec::new();
    codec::write_sleb(&mut out, -123456);
    assert_eq!(out, vec![0xC0, 0xBB, 0x78]);
}

#[test]
fn value_type_encodings_round_trip() {
    let tys = vec![
        ValType::I32,
        ValType::I64,
        ValType::F32,
        ValType::F64,
        ValType::V128,
        ValType::Ref(RefType::anyref()),
        ValType::Ref(RefType::funcref()),
        ValType::Ref(RefType::exnref()),
        ValType::Ref(RefType::nullfuncref()),
        ValType::Ref(RefType::eqref()),
        ValType::Ref(RefType::structref()),
        ValType::Ref(RefType::arrayref()),
        ValType::Ref(RefType { nullable: false, heap_type: HeapType::Abstract(AbstractHeapType::I31) }),
        ValType::Ref(RefType { nullable: false, heap_type: HeapType::Abstract(AbstractHeapType::Extern) }),
    ];
    for t in tys {
        let mut out: Vec<u8> = Vec::new();
        codec::write_val_type(&mut out, &t).unwrap();
        let (back, p) = codec::decode_val_type(out.as_slice(), 0).unwrap();
        assert_eq!(back, t);
        assert_eq!(p, out.len());
    }
    // The shorthand byte of i31ref.
    let mut out: Vec<u8> = Vec::new();
    codec::write_val_type(&mut out, &ValType::Ref(RefType::i31ref())).unwrap();
    assert_eq!(out, vec![0x6C]);
    // A concrete heap type cannot be written.
    let mut out2: Vec<u8> = Vec::new();
    let r = codec::write_val_type(
        &mut out2,
        &ValType::Ref(RefType { nullable: false, heap_type: HeapType::Concrete(3) }),
    );
    assert_eq!(r.err().unwrap(), Error::Unimplemented);
    assert_eq!(out2.len(), 0);
}

#[test]
fn emitted_modules_validate_with_wasmparser() {
    let mut module = Module::with_config(ModuleConfig::new());
    let mut builder = FunctionBuilder::new(&mut module.types, &[], &[ValType::I32]);
    let body = builder.func_body();
    builder.i32_const(body, 42);
    builder.ref_i31(body);
    builder.i31_get_u(body);
    let func_id = builder.finish(vec![], &mut module.funcs).unwrap();
    module.exports.add("roundtrip", func_id);
    let wasm = module.emit_wasm().unwrap();
    wasmparser::validate(&wasm).expect("the emitted module should validate");
}

#[test]
fn wasmencoder_conversions_mirror_the_model() {
    let rt = RefType::anyref();
    let enc = rt.to_wasmencoder_ref_type();
    assert!(enc.nullable);
    assert_eq!(
        enc.heap_type,
        wasm_encoder::HeapType::Abstract {
            shared: false,
            ty: wasm_encoder::AbstractHeapType::Any,
        },
    );
    let non_null = RefType {
        nullable: false,
        heap_type: HeapType::Abstract(AbstractHeapType::I31),
    };
    let enc2 = non_null.to_wasmencoder_ref_type();
    assert!(!enc2.nullable);
    assert_eq!(
        ValType::I32.to_wasmencoder_type(),
        wasm_encoder::ValType::I32,
    );
    assert_eq!(
        AbstractHeapType::NoneType.to_wasmencoder_type(),
        wasm_encoder::AbstractHeapType::None,
    );
}

#[test]
fn wasmparser_conversions_reject_continuations() {
    assert_eq!(
        AbstractHeapType::try_from_wasmparser(wasmparser::AbstractHeapType::I31).unwrap(),
        AbstractHeapType::I31,
    );
    assert_eq!(
        AbstractHeapType::try_from_wasmparser(wasmparser::AbstractHeapType::Cont)
            .err()
            .unwrap(),
        Error::UnsupportedFeature(Unsupported::ContinuationType),
    );
    let rt = RefType::try_from_wasmparser(wasmparser::RefType::ANYREF).unwrap();
    assert_eq!(rt, RefType::anyref());
    assert_eq!(
        ValType::parse(&wasmparser::ValType::I64).unwrap(),
        ValType::I64,
    );
    let one = ValType::from_wasmparser_type(&wasmparser::ValType::F32).unwrap();
    assert_eq!(one, vec![ValType::F32]);
}

#[test]
fn decoding_an_indexed_block_type_is_unsupported() {
    let bytes = vec![
        0x00, 0x61, 0x73, 0x6D, 0x01, 0x00, 0x00, 0x00, // header
        0x01, 0x04, 0x01, 0x60, 0x00, 0x00, // one type: () -> ()
        0x03, 0x02, 0x01, 0x00, // one function of type 0
        0x0A, 0x07, 0x01, // code section, one body
        0x05, // body size
        0x00, // no locals
        0x02, 0x00, // block with a type-section index as its block type
        0x0B, 0x0B,
    ];
    let r = Module::from_buffer(&bytes);
    assert_eq!(r.err().unwrap(), Error::UnsupportedFeature(Unsupported::BlockTypeIndex));
}

#[test]
fn decoding_an_unmodeled_instruction_is_unsupported() {
    let bytes = vec![
        0x00, 0x61, 0x73, 0x6D, 0x01, 0x00, 0x00, 0x00, // header
        0x01, 0x04, 0x01, 0x60, 0x00, 0x00, // one type: () -> ()
        0x03, 0x02, 0x01, 0x00, // one function of type 0
        0x0A, 0x06, 0x01, // code section, one body
        0x04, // body size
        0x00, // no locals
        0x10, 0x00, // call, which this library does not model
        0x0B,
    ];
    let r = Module::from_buffer(&bytes);
    assert_eq!(r.err().unwrap(), Error::UnsupportedFeature(Unsupported::Opcode));
}

#[test]
fn decoding_a_non_function_export_is_unsupported() {
    let bytes = vec![
        0x00, 0x61, 0x73, 0x6D, 0x01, 0x00, 0x00, 0x00, // header
        0x07, 0x05, // export section
        0x01, // one export
        0x01, 0x61, // name "a"
        0x01, 0x00, // a table export
    ];
    let r = Module::from_buffer(&bytes);
    assert_eq!(r.err().unwrap(), Error::UnsupportedFeature(Unsupported::ExportKind));
}

#[test]
fn converting_an_exact_wasmparser_heap_type_is_unsupported() {
    let idx = wasmparser::UnpackedIndex::Module(0);
    let r = HeapType::try_from_wasmparser(wasmparser::HeapType::Exact(idx));
    assert_eq!(r.err().unwrap(), Error::UnsupportedFeature(Unsupported::ExactHeapType));
    let r2 = HeapType::try_from_wasmparser(wasmparser::HeapType::Concrete(idx));
    assert_eq!(r2.err().unwrap(), Error::UnsupportedFeature(Unsupported::ConcreteHeapType));
}

#[test]
fn value_type_vectors_round_trip() {
    // A two-element vector: count, then each type's encoding.
    let bytes = vec![0x02, 0x7F, 0x6C];
    let (vs, p) = codec::read_val_types(&bytes, 0).unwrap();
    assert_eq!(vs, vec![ValType::I32, ValType::Ref(RefType::i31ref())]);
    assert_eq!(p, 3);
    // The empty vector.
    let (vs2, p2) = codec::read_val_types(&[0x00], 0).unwrap();
    assert_eq!(vs2, Vec::<ValType>::new());
    assert_eq!(p2, 1);
    // A count that runs past the input is malformed.
    assert!(codec::read_val_types(&[0x02, 0x7F], 0).is_err());
}

#[test]
fn type_ordering_is_lexicographic_params_then_results() {
    let mut types = ModuleTypes::new();
    let a = types.intern(&[ValType::I32], &[ValType::I64]);
    let b = types.intern(&[ValType::I32], &[ValType::F32]);
    let c = types.intern(&[ValType::I32, ValType::I32], &[]);
    let d = types.intern(&[ValType::I32], &[ValType::I64]);
    let ta = types.lookup(a).unwrap();
    let tb = types.lookup(b).unwrap();
    let tc = types.lookup(c).unwrap();
    let td = types.lookup(d).unwrap();
    // Same params: the results decide; i64 orders before f32.
    assert_eq!(ta.compare(tb), std::cmp::Ordering::Less);
    assert_eq!(tb.compare(ta), std::cmp::Ordering::Greater);
    // A proper params prefix orders before its extension.
    assert_eq!(ta.compare(tc), std::cmp::Ordering::Less);
    // Structurally equal types compare equal.
    assert_eq!(ta.compare(td), std::cmp::Ordering::Equal);
}

#[test]
fn decoding_the_bare_header_yields_the_empty_module() {
    let bytes = vec![0x00, 0x61, 0x73, 0x6D, 0x01, 0x00, 0x00, 0x00];
    let m = Module::from_buffer(&bytes).unwrap();
    assert_eq!(m.types.len(), 0);
    assert_eq!(m.funcs.len(), 0);
    assert_eq!(m.locals.len(), 0);
    assert_eq!(m.tables.tables.len(), 0);
    assert_eq!(m.globals.globals.len(), 0);
    assert_eq!(m.exports.exports.len(), 0);
}

#[test]
fn i64_global_initializers_round_trip_beyond_i32_range() {
    let mut module = Module::with_config(ModuleConfig::new());
    let _ = module.globals.add_local(
        ValType::I64,
        false,
        false,
        ConstExpr::Value(Value::I64(-9_000_000_000_000_000_000)),
    );
    let _ = module.globals.add_local(
        ValType::I64,
        true,
        false,
        ConstExpr::Value(Value::I64(i64::MAX)),
    );
    let wasm = module.emit_wasm().unwrap();
    let back = Module::from_buffer(&wasm).unwrap();
    assert_eq!(back.globals.globals.len(), 2);
    assert_eq!(
        back.globals.globals[0].init,
        ConstExpr::Value(Value::I64(-9_000_000_000_000_000_000)),
    );
    assert_eq!(back.globals.globals[1].init, ConstExpr::Value(Value::I64(i64::MAX)));
    assert!(back.globals.globals[1].mutable);
}

#[test]
fn exports_must_name_a_declared_function() {
    // A well-formed header and an export section naming function index 0,
    // with no function section at all.
    let bytes = vec![
        0x00, 0x61, 0x73, 0x6D, 0x01, 0x00, 0x00, 0x00, // header
        0x07, 0x05, // export section
        0x01, // one export
        0x01, 0x61, // name "a"
        0x00, 0x00, // a function export of index 0
    ];
    let r = Module::from_buffer(&bytes);
    assert!(matches!(r.err().unwrap(), Error::MalformedInput { .. }));
}

#[test]
fn function_entry_signatures_stay_out_of_the_type_section() {
    let mut module = Module::with_config(ModuleConfig::new());
    let mut builder = FunctionBuilder::new(&mut module.types, &[ValType::I32], &[ValType::I32]);
    let arg = module.locals.add(ValType::I32);
    let body = builder.func_body();
    builder.local_get(body, arg);
    let func_id = builder.finish(vec![arg], &mut module.funcs).unwrap();
    module.exports.add("id", func_id);
    // The store holds the signature and its internal entry-block variant.
    assert_eq!(module.types.len(), 2);
    assert!(module.types.get_at(1).unwrap().is_for_function_entry());
    // The emitted type section carries only the visible signature: section
    // id, size, then [count=1, func form, one param i32, one result i32].
    let wasm = module.emit_wasm().unwrap();
    assert_eq!(&wasm[8..16], &[0x01, 0x06, 0x01, 0x60, 0x01, 0x7F, 0x01, 0x7F]);
}
