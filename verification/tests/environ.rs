use wasmcont::environ::{
    DummyEnvironment, DummyFuncEnvironment, ExpectedReachability, GlobalVariable,
};
use wasmcont::ir::{
    AbiParam, ArgumentPurpose, CallConv, ExternalName, Function, GlobalValue, GlobalValueData,
    HeapStyle, InstData, IrType, Signature, TargetFrontendConfig, UserFuncName, Value,
};
use wasmcont::types::{
    FuncIndex, Global, GlobalIndex, GlobalInit, Memory, MemoryIndex, Table, TableIndex, TypeIndex,
    WasmError, WasmFuncType, WasmHeapType, WasmRefType, WasmType,
};

fn config64() -> TargetFrontendConfig {
    TargetFrontendConfig {
        default_call_conv: CallConv::Fast,
        pointer_bytes: 8,
    }
}

fn funcref_table() -> Table {
    Table {
        wasm_ty: WasmRefType {
            nullable: true,
            heap_type: WasmHeapType::Func,
        },
        minimum: 0,
        maximum: None,
    }
}

fn small_memory() -> Memory {
    Memory {
        minimum: 1,
        maximum: None,
        shared: false,
        memory64: false,
    }
}

fn i64_global() -> Global {
    Global {
        wasm_ty: WasmType::I64,
        mutability: false,
        initializer: GlobalInit::I64Const(1),
    }
}

#[test]
fn imports_first_across_declarations() {
    // Imports of each kind land in the prefix of that kind's entity
    // list; local declarations follow them.
    let mut env = DummyEnvironment::new(config64(), false);
    env.declare_type_func(&WasmFuncType::new(vec![], vec![])).unwrap();
    env.declare_func_import(TypeIndex(0), "host".to_string(), "f".to_string())
        .unwrap();
    env.declare_func_type(TypeIndex(0)).unwrap();
    env.declare_table_import(funcref_table(), "host".to_string(), "t".to_string())
        .unwrap();
    env.declare_table(funcref_table()).unwrap();
    env.declare_memory_import(small_memory(), "host".to_string(), "m".to_string())
        .unwrap();
    env.declare_memory(small_memory()).unwrap();
    env.declare_global_import(i64_global(), "host".to_string(), "g".to_string())
        .unwrap();
    env.declare_global(i64_global(), GlobalInit::Import).unwrap();
    assert_eq!(env.get_num_func_imports(), 1);
    assert_eq!(env.info.functions.len(), 2);
    assert_eq!(env.info.imported_tables.len(), 1);
    assert_eq!(env.info.tables.len(), 2);
    assert_eq!(env.info.imported_memories.len(), 1);
    assert_eq!(env.info.memories.len(), 2);
    assert_eq!(env.info.imported_globals.len(), 1);
    assert_eq!(env.info.globals.len(), 2);
    assert_eq!(
        env.info.imported_funcs[0],
        ("host".to_string(), "f".to_string())
    );
}

#[test]
fn exports_and_start_function() {
    let mut env = DummyEnvironment::new(config64(), false);
    env.declare_type_func(&WasmFuncType::new(vec![], vec![])).unwrap();
    env.declare_func_type(TypeIndex(0)).unwrap();
    env.declare_func_export(FuncIndex(0), "main".to_string())
        .unwrap();
    env.declare_func_export(FuncIndex(0), "alias".to_string())
        .unwrap();
    assert_eq!(
        env.info.functions[0].export_names,
        vec!["main".to_string(), "alias".to_string()]
    );
    assert_eq!(
        env.declare_func_export(FuncIndex(9), "ghost".to_string()),
        Err(WasmError::IndexOutOfBounds)
    );
    assert_eq!(
        env.declare_table_export(TableIndex(0), "t".to_string()),
        Err(WasmError::IndexOutOfBounds)
    );
    assert_eq!(env.declare_start_func(FuncIndex(0)), Ok(()));
    assert_eq!(
        env.declare_start_func(FuncIndex(0)),
        Err(WasmError::DuplicateStart)
    );
    assert_eq!(env.info.start_func, Some(FuncIndex(0)));
}

#[test]
fn function_names_and_module_name() {
    let mut env = DummyEnvironment::new(config64(), false);
    env.declare_module_name("demo".to_string());
    assert_eq!(env.module_name, Some("demo".to_string()));
    assert!(env.get_func_name(FuncIndex(0)).is_none());
    env.declare_func_name(FuncIndex(0), "first".to_string());
    env.declare_func_name(FuncIndex(1), "second".to_string());
    env.declare_func_name(FuncIndex(0), "renamed".to_string());
    assert_eq!(env.get_func_name(FuncIndex(0)), Some(&"renamed".to_string()));
    assert_eq!(env.get_func_name(FuncIndex(1)), Some(&"second".to_string()));
    assert!(env.get_func_name(FuncIndex(2)).is_none());
}

#[test]
fn wasm_features_defaults() {
    let env = DummyEnvironment::new(config64(), false);
    let features = env.wasm_features();
    assert!(features.multi_value);
    assert!(features.simd);
    assert!(features.reference_types);
    assert!(features.bulk_memory);
}

#[test]
fn define_function_body_builds_shell() {
    let mut env = DummyEnvironment::new(config64(), false);
    env.declare_type_func(&WasmFuncType::new(vec![WasmType::I32], vec![WasmType::I64]))
        .unwrap();
    env.declare_func_import(TypeIndex(0), "host".to_string(), "f".to_string())
        .unwrap();
    env.declare_func_type(TypeIndex(0)).unwrap();
    env.define_function_body(17).unwrap();
    assert_eq!(env.func_bytecode_sizes, vec![17]);
    assert_eq!(env.info.function_bodies.len(), 1);
    let body = &env.info.function_bodies[0];
    assert_eq!(body.name, UserFuncName::user(0, 1));
    assert_eq!(body.signature.params.len(), 2);
    assert_eq!(
        body.signature.params[1],
        AbiParam::special(IrType::I64, ArgumentPurpose::VMContext)
    );
    assert_eq!(env.get_func_type(FuncIndex(1)), TypeIndex(0));
}

#[test]
fn reachability_trace_matches_exactly() {
    // A prescribed (before, after) trace is accepted exactly when the
    // observed trace is identical.
    let mut er = ExpectedReachability {
        reachability: vec![(true, true), (true, false), (false, false)],
        before_idx: 0,
        after_idx: 0,
    };
    let observed = vec![(true, true), (true, false), (false, false)];
    assert!(er.clone().check_trace(&observed));
    let wrong_bit = vec![(true, true), (true, true), (false, false)];
    assert!(!er.clone().check_trace(&wrong_bit));
    let too_short = vec![(true, true)];
    assert!(!er.clone().check_trace(&too_short));
    let too_long = vec![(true, true), (true, false), (false, false), (false, false)];
    assert!(!er.check_trace(&too_long));
}

#[test]
fn reachability_hooks_walk_the_trace() {
    let mut env = DummyEnvironment::new(config64(), false);
    env.test_expected_reachability(vec![(true, true), (false, false)]);
    let mut fenv = env.func_env();
    assert_eq!(fenv.before_translate_operator(true), Ok(()));
    assert_eq!(fenv.after_translate_operator(true), Ok(()));
    assert!(fenv.after_translate_function().is_err());
    assert_eq!(fenv.before_translate_operator(false), Ok(()));
    assert_eq!(fenv.after_translate_operator(false), Ok(()));
    assert_eq!(fenv.after_translate_function(), Ok(()));
    assert!(fenv.before_translate_operator(true).is_err());
}

fn env_with_binary_i32_sig() -> DummyEnvironment {
    let mut env = DummyEnvironment::new(config64(), false);
    env.declare_type_func(&WasmFuncType::new(
        vec![WasmType::I32, WasmType::I32],
        vec![],
    ))
    .unwrap();
    env.declare_func_type(TypeIndex(0)).unwrap();
    env
}

#[test]
fn direct_call_lowering() {
    // A call with two i32 arguments in a function that has the VMContext
    // special parameter: the callee is imported under the augmented
    // signature (i32, i32, vmctx) and the call's arguments are
    // [arg0, arg1, vmctx].
    let env = env_with_binary_i32_sig();
    let mut fenv = env.func_env();
    let sig = fenv.vmctx_sig(TypeIndex(0));
    assert_eq!(
        sig.params,
        vec![
            AbiParam::new(IrType::I32),
            AbiParam::new(IrType::I32),
            AbiParam::special(IrType::I64, ArgumentPurpose::VMContext),
        ]
    );
    let mut func = Function::with_name_signature(UserFuncName::user(0, 0), sig);
    let callee = fenv.make_direct_func(&mut func, FuncIndex(0)).unwrap();
    assert_eq!(
        func.ext_funcs[0].name,
        ExternalName::User {
            namespace: 0,
            index: 0,
        }
    );
    assert!(!func.ext_funcs[0].colocated);
    let imported_sig = &func.sig_refs[func.ext_funcs[0].signature.0];
    assert_eq!(imported_sig.params.len(), 3);
    assert_eq!(
        imported_sig.params[2].purpose,
        ArgumentPurpose::VMContext
    );
    let args = vec![Value(0), Value(1)];
    let inst = fenv.translate_call(&mut func, FuncIndex(0), callee, &args).unwrap();
    assert_eq!(inst.0, 0);
    assert_eq!(
        func.insts[0],
        InstData::Call {
            func_ref: callee,
            // The vmctx special parameter is the third SSA value.
            args: vec![Value(0), Value(1), Value(2)],
        }
    );
}

#[test]
fn indirect_call_lowering_64bit() {
    // A call_indirect with a 32-bit callee index and an element stride of
    // 16: the index is zero-extended to 64 bits, multiplied by 16, the
    // target is loaded from the table's base through a trusted load, and
    // the indirect call appends the vmctx.
    let env = env_with_binary_i32_sig();
    let mut fenv = env.func_env();
    let sig = fenv.vmctx_sig(TypeIndex(0));
    let mut func = Function::with_name_signature(UserFuncName::user(0, 0), sig);
    let table = fenv.make_table(&mut func, TableIndex(0)).unwrap();
    let td = func.tables[table.0];
    assert_eq!(td.element_size, 16);
    let sig_ref = fenv.make_indirect_sig(&mut func, TypeIndex(0)).unwrap();
    let callee_index = Value(1);
    let args = vec![Value(0), Value(1)];
    let inst = fenv
        .translate_call_indirect(
            &mut func,
            TableIndex(0),
            table,
            TypeIndex(0),
            sig_ref,
            callee_index,
            &args,
        )
        .unwrap();
    // Values 0..2 are the parameters; lowering values start at 3.
    assert_eq!(
        func.insts[0],
        InstData::UExtend {
            to: IrType::I64,
            arg: callee_index,
        }
    );
    assert_eq!(
        func.insts[1],
        InstData::IMulImm {
            arg: Value(3),
            imm: 16,
        }
    );
    assert_eq!(func.insts[2], InstData::GlobalAddr { gv: td.base_gv });
    assert_eq!(
        func.insts[3],
        InstData::IAdd {
            x: Value(5),
            y: Value(4),
        }
    );
    assert_eq!(
        func.insts[4],
        InstData::Load {
            ty: IrType::I64,
            flags_trusted: true,
            addr: Value(6),
            offset: 0,
        }
    );
    assert_eq!(
        func.insts[5],
        InstData::CallIndirect {
            sig_ref,
            callee: Value(7),
            args: vec![Value(0), Value(1), Value(2)],
        }
    );
    assert_eq!(inst.0, 5);
}

#[test]
fn make_global_lowering() {
    let mut env = DummyEnvironment::new(config64(), false);
    env.declare_global(i64_global(), GlobalInit::I64Const(1)).unwrap();
    env.declare_global(i64_global(), GlobalInit::I64Const(2)).unwrap();
    let mut fenv = env.func_env();
    let mut func = Function::with_name_signature(
        UserFuncName::user(0, 0),
        Signature::new(CallConv::Fast),
    );
    let gv = fenv.make_global(&mut func, GlobalIndex(1)).unwrap();
    assert_eq!(func.global_values, vec![GlobalValueData::VMContext]);
    assert_eq!(
        gv,
        GlobalVariable::Memory {
            gv: GlobalValue(0),
            offset: 16,
            ty: IrType::I64,
        }
    );
}

#[test]
fn make_heap_lowering() {
    let env = DummyEnvironment::new(config64(), false);
    let mut fenv = env.func_env();
    let mut func = Function::with_name_signature(
        UserFuncName::user(0, 0),
        Signature::new(CallConv::Fast),
    );
    let heap = fenv.make_heap(&mut func, MemoryIndex(0)).unwrap();
    assert_eq!(heap.0, 0);
    let data = fenv.heaps()[0];
    assert_eq!(data.base, GlobalValue(1));
    assert_eq!(data.min_size, 0);
    assert_eq!(data.offset_guard_size, 0x8000_0000);
    assert_eq!(
        data.style,
        HeapStyle::Static {
            bound: 0x1_0000_0000,
        }
    );
    assert_eq!(data.index_type, IrType::I32);
    assert_eq!(
        func.global_values[1],
        GlobalValueData::Load {
            base: GlobalValue(0),
            offset: 0,
            global_type: IrType::I64,
            readonly: true,
        }
    );
}

#[test]
fn simple_op_lowerings() {
    let env = DummyEnvironment::new(config64(), false);
    let mut fenv = env.func_env();
    let mut func = Function::with_name_signature(
        UserFuncName::user(0, 0),
        Signature::new(CallConv::Fast),
    );
    let heap = wasmcont::ir::Heap(0);
    let v = fenv
        .translate_memory_grow(&mut func, MemoryIndex(0), heap, Value(0))
        .unwrap();
    assert_eq!(v, Value(0));
    assert_eq!(
        func.insts[0],
        InstData::IConst {
            ty: IrType::I32,
            imm: -1,
        }
    );
    let v = fenv
        .translate_atomic_notify(&mut func, MemoryIndex(0), heap, Value(0), Value(0))
        .unwrap();
    assert_eq!(v, Value(1));
    assert_eq!(
        func.insts[1],
        InstData::IConst {
            ty: IrType::I32,
            imm: 0,
        }
    );
    let v = fenv.translate_ref_func(&mut func, FuncIndex(0)).unwrap();
    assert_eq!(v, Value(2));
    assert_eq!(func.insts[2], InstData::Null { ty: IrType::R64 });
    assert_eq!(
        fenv.translate_memory_copy(
            &mut func,
            MemoryIndex(0),
            heap,
            MemoryIndex(0),
            heap,
            Value(0),
            Value(0),
            Value(0)
        ),
        Ok(())
    );
    assert_eq!(func.insts.len(), 3);
    assert!(fenv
        .translate_call_ref(&mut func, wasmcont::ir::SigRef(0), Value(0), &vec![])
        .is_err());
    assert!(fenv
        .translate_cont_new(&mut func, Value(0), &vec![], &vec![])
        .is_err());
    assert!(fenv.translate_suspend(&mut func, 0).is_err());
    assert!(matches!(fenv.continuation_arguments(0), Err(WasmError::Unsupported)));
}

#[test]
fn environment_config() {
    let env = DummyEnvironment::new(config64(), true);
    assert!(env.debug_info);
    let fenv = env.func_env();
    assert_eq!(fenv.target_config(), config64());
    assert!(!fenv.heap_access_spectre_mitigation());
    assert_eq!(fenv.pointer_type(), IrType::I64);
    assert_eq!(fenv.reference_type(), IrType::R64);
    let info = wasmcont::environ::DummyModuleInfo::new(config64());
    let fenv2 = DummyFuncEnvironment::new(&info, None);
    assert!(fenv2.heaps().is_empty());
}
