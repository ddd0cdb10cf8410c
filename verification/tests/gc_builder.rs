//! Tests for GC instruction builder methods and programmatic module
//! construction.

use walrus::{
    AbstractHeapType, BinaryOp, ConstExpr, FunctionBuilder, HeapType, Instr, Module, ModuleConfig,
    RefType, ValType, Value,
};

fn round_trip(module: &Module) -> Module {
    let wasm = module.emit_wasm().expect("should emit wasm");
    Module::from_buffer(&wasm).expect("should parse emitted wasm")
}

#[test]
fn test_ref_i31_builder() {
    let mut config = ModuleConfig::new();
    config.generate_producers_section(false);
    let mut module = Module::with_config(config);

    let mut builder = FunctionBuilder::new(
        &mut module.types,
        &[ValType::I32],
        &[ValType::Ref(RefType::i31ref())],
    );

    let arg = module.locals.add(ValType::I32);
    let body = builder.func_body();
    builder.local_get(body, arg);
    builder.ref_i31(body);

    let func_id = builder.finish(vec![arg], &mut module.funcs).unwrap();
    module.exports.add("make_i31", func_id);

    let _ = round_trip(&module);
}

#[test]
fn test_i31_get_s_builder() {
    let mut config = ModuleConfig::new();
    config.generate_producers_section(false);
    let mut module = Module::with_config(config);

    let mut builder = FunctionBuilder::new(
        &mut module.types,
        &[ValType::Ref(RefType::i31ref())],
        &[ValType::I32],
    );

    let arg = module.locals.add(ValType::Ref(RefType::i31ref()));
    let body = builder.func_body();
    builder.local_get(body, arg);
    builder.i31_get_s(body);

    let func_id = builder.finish(vec![arg], &mut module.funcs).unwrap();
    module.exports.add("get_s", func_id);

    let _ = round_trip(&module);
}

#[test]
fn test_i31_get_u_builder() {
    let mut config = ModuleConfig::new();
    config.generate_producers_section(false);
    let mut module = Module::with_config(config);

    let mut builder = FunctionBuilder::new(
        &mut module.types,
        &[ValType::Ref(RefType::i31ref())],
        &[ValType::I32],
    );

    let arg = module.locals.add(ValType::Ref(RefType::i31ref()));
    let body = builder.func_body();
    builder.local_get(body, arg);
    builder.i31_get_u(body);

    let func_id = builder.finish(vec![arg], &mut module.funcs).unwrap();
    module.exports.add("get_u", func_id);

    let _ = round_trip(&module);
}

#[test]
fn test_i31_roundtrip_builder() {
    let mut config = ModuleConfig::new();
    config.generate_producers_section(false);
    let mut module = Module::with_config(config);

    // Create: i32.const 42 -> ref.i31 -> i31.get_u -> returns 42
    let mut builder = FunctionBuilder::new(&mut module.types, &[], &[ValType::I32]);

    let body = builder.func_body();
    builder.i32_const(body, 42);
    builder.ref_i31(body);
    builder.i31_get_u(body);

    let func_id = builder.finish(vec![], &mut module.funcs).unwrap();
    module.exports.add("roundtrip", func_id);

    let back = round_trip(&module);
    let f = back
        .funcs
        .get(back.exports.exports[0].item)
        .expect("the exported function should survive the round trip");
    assert_eq!(
        f.seqs[0].instrs,
        vec![
            Instr::I32Const { value: 42 },
            Instr::RefI31,
            Instr::I31GetU,
        ],
    );
    assert_eq!(back.exports.exports[0].name, "roundtrip");
}

#[test]
fn test_ref_test_nullable_builder() {
    let mut config = ModuleConfig::new();
    config.generate_producers_section(false);
    let mut module = Module::with_config(config);

    let mut builder = FunctionBuilder::new(
        &mut module.types,
        &[ValType::Ref(RefType::anyref())],
        &[ValType::I32],
    );

    let arg = module.locals.add(ValType::Ref(RefType::anyref()));
    let body = builder.func_body();
    builder.local_get(body, arg);
    builder.ref_test(body, true, HeapType::Abstract(AbstractHeapType::I31));

    let func_id = builder.finish(vec![arg], &mut module.funcs).unwrap();
    module.exports.add("test_nullable", func_id);

    let _ = round_trip(&module);
}

#[test]
fn test_ref_test_non_nullable_builder() {
    let mut config = ModuleConfig::new();
    config.generate_producers_section(false);
    let mut module = Module::with_config(config);

    let mut builder = FunctionBuilder::new(
        &mut module.types,
        &[ValType::Ref(RefType::anyref())],
        &[ValType::I32],
    );

    let arg = module.locals.add(ValType::Ref(RefType::anyref()));
    let body = builder.func_body();
    builder.local_get(body, arg);
    builder.ref_test(body, false, HeapType::Abstract(AbstractHeapType::I31));

    let func_id = builder.finish(vec![arg], &mut module.funcs).unwrap();
    module.exports.add("test_non_nullable", func_id);

    let _ = round_trip(&module);
}

#[test]
fn test_ref_cast_nullable_builder() {
    let mut config = ModuleConfig::new();
    config.generate_producers_section(false);
    let mut module = Module::with_config(config);

    let mut builder = FunctionBuilder::new(
        &mut module.types,
        &[ValType::Ref(RefType::anyref())],
        &[ValType::Ref(RefType::i31ref())],
    );

    let arg = module.locals.add(ValType::Ref(RefType::anyref()));
    let body = builder.func_body();
    builder.local_get(body, arg);
    builder.ref_cast(body, true, HeapType::Abstract(AbstractHeapType::I31));

    let func_id = builder.finish(vec![arg], &mut module.funcs).unwrap();
    module.exports.add("cast_nullable", func_id);

    let _ = round_trip(&module);
}

#[test]
fn test_ref_cast_non_nullable_builder() {
    let mut config = ModuleConfig::new();
    config.generate_producers_section(false);
    let mut module = Module::with_config(config);

    // Non-nullable cast returns (ref i31), not (ref null i31)
    let non_null_i31 = RefType {
        nullable: false,
        heap_type: HeapType::Abstract(AbstractHeapType::I31),
    };

    let mut builder = FunctionBuilder::new(
        &mut module.types,
        &[ValType::Ref(RefType::anyref())],
        &[ValType::Ref(non_null_i31)],
    );

    let arg = module.locals.add(ValType::Ref(RefType::anyref()));
    let body = builder.func_body();
    builder.local_get(body, arg);
    builder.ref_cast(body, false, HeapType::Abstract(AbstractHeapType::I31));

    let func_id = builder.finish(vec![arg], &mut module.funcs).unwrap();
    module.exports.add("cast_non_nullable", func_id);

    let _ = round_trip(&module);
}

#[test]
fn test_any_convert_extern_builder() {
    let mut config = ModuleConfig::new();
    config.generate_producers_section(false);
    let mut module = Module::with_config(config);

    let mut builder = FunctionBuilder::new(
        &mut module.types,
        &[ValType::Ref(RefType::externref())],
        &[ValType::Ref(RefType::anyref())],
    );

    let arg = module.locals.add(ValType::Ref(RefType::externref()));
    let body = builder.func_body();
    builder.local_get(body, arg);
    builder.any_convert_extern(body);

    let func_id = builder.finish(vec![arg], &mut module.funcs).unwrap();
    module.exports.add("internalize", func_id);

    let _ = round_trip(&module);
}

#[test]
fn test_extern_convert_any_builder() {
    let mut config = ModuleConfig::new();
    config.generate_producers_section(false);
    let mut module = Module::with_config(config);

    let mut builder = FunctionBuilder::new(
        &mut module.types,
        &[ValType::Ref(RefType::anyref())],
        &[ValType::Ref(RefType::externref())],
    );

    let arg = module.locals.add(ValType::Ref(RefType::anyref()));
    let body = builder.func_body();
    builder.local_get(body, arg);
    builder.extern_convert_any(body);

    let func_id = builder.finish(vec![arg], &mut module.funcs).unwrap();
    module.exports.add("externalize", func_id);

    let _ = round_trip(&module);
}

#[test]
fn test_ref_null_any_builder() {
    let mut config = ModuleConfig::new();
    config.generate_producers_section(false);
    let mut module = Module::with_config(config);

    let mut builder =
        FunctionBuilder::new(&mut module.types, &[], &[ValType::Ref(RefType::anyref())]);

    let body = builder.func_body();
    builder.ref_null(body, RefType::anyref());

    let func_id = builder.finish(vec![], &mut module.funcs).unwrap();
    module.exports.add("null_any", func_id);

    let _ = round_trip(&module);
}

#[test]
fn test_ref_null_i31_builder() {
    let mut config = ModuleConfig::new();
    config.generate_producers_section(false);
    let mut module = Module::with_config(config);

    let mut builder =
        FunctionBuilder::new(&mut module.types, &[], &[ValType::Ref(RefType::i31ref())]);

    let body = builder.func_body();
    builder.ref_null(body, RefType::i31ref());

    let func_id = builder.finish(vec![], &mut module.funcs).unwrap();
    module.exports.add("null_i31", func_id);

    let _ = round_trip(&module);
}

#[test]
fn test_br_on_cast_builder() {
    let mut config = ModuleConfig::new();
    config.generate_producers_section(false);
    let mut module = Module::with_config(config);

    let mut builder = FunctionBuilder::new(
        &mut module.types,
        &[ValType::Ref(RefType::anyref())],
        &[ValType::I32],
    );

    let arg = module.locals.add(ValType::Ref(RefType::anyref()));

    // Build:
    // (block $is_i31 (result i31ref)
    //   local.get 0
    //   br_on_cast $is_i31 (ref null any) (ref null i31)
    //   drop
    //   i32.const -1
    //   return
    // )
    // i31.get_u
    let block_id = builder.dangling_instr_seq(Some(ValType::Ref(RefType::i31ref())));

    builder.local_get(block_id, arg);
    builder.br_on_cast(
        block_id,
        block_id,
        true,
        HeapType::Abstract(AbstractHeapType::Any),
        true,
        HeapType::Abstract(AbstractHeapType::I31),
    );
    builder.drop(block_id);
    builder.i32_const(block_id, -1);
    builder.return_(block_id);

    let body = builder.func_body();
    builder.instr(body, Instr::Block { seq: block_id });
    builder.i31_get_u(body);

    let func_id = builder.finish(vec![arg], &mut module.funcs).unwrap();
    module.exports.add("br_on_cast_i31", func_id);

    let _ = round_trip(&module);
}

#[test]
fn test_br_on_cast_fail_builder() {
    let mut config = ModuleConfig::new();
    config.generate_producers_section(false);
    let mut module = Module::with_config(config);

    let mut builder = FunctionBuilder::new(
        &mut module.types,
        &[ValType::Ref(RefType::anyref())],
        &[ValType::I32],
    );

    let arg = module.locals.add(ValType::Ref(RefType::anyref()));

    // Build:
    // (block $not_i31 (result anyref)
    //   local.get 0
    //   br_on_cast_fail $not_i31 (ref null any) (ref null i31)
    //   i31.get_u
    //   return
    // )
    // drop
    // i32.const -1
    let block_id = builder.dangling_instr_seq(Some(ValType::Ref(RefType::anyref())));

    builder.local_get(block_id, arg);
    builder.br_on_cast_fail(
        block_id,
        block_id,
        true,
        HeapType::Abstract(AbstractHeapType::Any),
        true,
        HeapType::Abstract(AbstractHeapType::I31),
    );
    builder.i31_get_u(block_id);
    builder.return_(block_id);

    let body = builder.func_body();
    builder.instr(body, Instr::Block { seq: block_id });
    builder.drop(body);
    builder.i32_const(body, -1);

    let func_id = builder.finish(vec![arg], &mut module.funcs).unwrap();
    module.exports.add("br_on_cast_fail_i31", func_id);

    let _ = round_trip(&module);
}

/// Build a slab allocator module programmatically.
/// This demonstrates the full GC instruction set working together.
#[test]
fn test_slab_allocator_builder() {
    let mut config = ModuleConfig::new();
    config.generate_producers_section(false);
    let mut module = Module::with_config(config);

    // Table holding both externrefs (allocated) and i31refs (free list pointers)
    let table_id = module
        .tables
        .add_local(false, 128, Some(128), RefType::anyref());

    // Global: head of free list (index into table)
    let free_head = module.globals.add_local(
        ValType::I32,
        true,  // mutable
        false, // shared
        ConstExpr::Value(Value::I32(0)),
    );

    // $init - Initialize free list: each slot points to next
    {
        let mut builder = FunctionBuilder::new(&mut module.types, &[], &[]);
        let i = module.locals.add(ValType::I32);

        // Loop body
        let loop_id = builder.dangling_instr_seq(None);

        // table.set $slab i (ref.i31 (i + 1))
        builder.local_get(loop_id, i);
        builder.local_get(loop_id, i);
        builder.i32_const(loop_id, 1);
        builder.binop(loop_id, BinaryOp::I32Add);
        builder.ref_i31(loop_id);
        builder.table_set(loop_id, table_id);
        // i = i + 1
        builder.local_get(loop_id, i);
        builder.i32_const(loop_id, 1);
        builder.binop(loop_id, BinaryOp::I32Add);
        builder.local_set(loop_id, i);
        // br_if $loop (i < 127)
        builder.local_get(loop_id, i);
        builder.i32_const(loop_id, 127);
        builder.binop(loop_id, BinaryOp::I32LtU);
        builder.br_if(loop_id, loop_id);

        let body = builder.func_body();
        builder.i32_const(body, 0);
        builder.local_set(body, i);
        builder.instr(body, Instr::Loop { seq: loop_id });
        // Last slot points to sentinel (128 = end of list)
        builder.i32_const(body, 127);
        builder.i32_const(body, 128);
        builder.ref_i31(body);
        builder.table_set(body, table_id);

        let func_id = builder.finish(vec![], &mut module.funcs).unwrap();
        module.exports.add("init", func_id);
    }

    // $alloc - Allocate: pop from free list, return index
    {
        let mut builder = FunctionBuilder::new(&mut module.types, &[], &[ValType::I32]);
        let idx = module.locals.add(ValType::I32);
        let next = module.locals.add(ValType::I32);

        let body = builder.func_body();
        // idx = free_head
        builder.global_get(body, free_head);
        builder.local_set(body, idx);
        // next = i31.get_u(ref.cast i31ref (table.get $slab idx))
        builder.local_get(body, idx);
        builder.table_get(body, table_id);
        builder.ref_cast(body, true, HeapType::Abstract(AbstractHeapType::I31));
        builder.i31_get_u(body);
        builder.local_set(body, next);
        // free_head = next
        builder.local_get(body, next);
        builder.global_set(body, free_head);
        // return idx
        builder.local_get(body, idx);

        let func_id = builder.finish(vec![], &mut module.funcs).unwrap();
        module.exports.add("alloc", func_id);
    }

    // $dealloc - Deallocate: push onto free list
    {
        let mut builder = FunctionBuilder::new(&mut module.types, &[ValType::I32], &[]);
        let idx = module.locals.add(ValType::I32);

        let body = builder.func_body();
        // slab[idx] = i31(free_head)
        builder.local_get(body, idx);
        builder.global_get(body, free_head);
        builder.ref_i31(body);
        builder.table_set(body, table_id);
        // free_head = idx
        builder.local_get(body, idx);
        builder.global_set(body, free_head);

        let func_id = builder.finish(vec![idx], &mut module.funcs).unwrap();
        module.exports.add("dealloc", func_id);
    }

    // $store - Store externref at allocated slot
    {
        let mut builder = FunctionBuilder::new(
            &mut module.types,
            &[ValType::I32, ValType::Ref(RefType::externref())],
            &[],
        );
        let idx = module.locals.add(ValType::I32);
        let val = module.locals.add(ValType::Ref(RefType::externref()));

        let body = builder.func_body();
        builder.local_get(body, idx);
        builder.local_get(body, val);
        builder.any_convert_extern(body);
        builder.table_set(body, table_id);

        let func_id = builder.finish(vec![idx, val], &mut module.funcs).unwrap();
        module.exports.add("store", func_id);
    }

    // $load - Load externref from slot
    {
        let mut builder = FunctionBuilder::new(
            &mut module.types,
            &[ValType::I32],
            &[ValType::Ref(RefType::externref())],
        );
        let idx = module.locals.add(ValType::I32);

        let body = builder.func_body();
        builder.local_get(body, idx);
        builder.table_get(body, table_id);
        builder.extern_convert_any(body);

        let func_id = builder.finish(vec![idx], &mut module.funcs).unwrap();
        module.exports.add("load", func_id);
    }

    let back = round_trip(&module);
    assert_eq!(back.exports.exports.len(), 5);
    assert_eq!(back.tables.tables.len(), 1);
    assert_eq!(back.globals.globals.len(), 1);
}
