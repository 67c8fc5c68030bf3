use wasmcont::ir::{CallConv, Function, IrType, Signature, TargetFrontendConfig, UserFuncName};
use wasmcont::translation_utils::{
    block_with_params, blocktype_params_results, f32_translation, f64_translation,
    get_vmctx_value_label, tabletype_to_type, type_to_type, TableElementType,
};
use wasmcont::types::WasmError;
use wasmcont::wire::{WireBlockType, WireFuncType, WireHeapType, WireRefType, WireValType};

fn config64() -> TargetFrontendConfig {
    TargetFrontendConfig {
        default_call_conv: CallConv::Fast,
        pointer_bytes: 8,
    }
}

#[test]
fn wire_types_to_ir_types() {
    let config = config64();
    assert_eq!(type_to_type(WireValType::I32, &config), Ok(IrType::I32));
    assert_eq!(type_to_type(WireValType::F64, &config), Ok(IrType::F64));
    assert_eq!(type_to_type(WireValType::V128, &config), Ok(IrType::I8X16));
    let externref = WireValType::Ref(WireRefType {
        nullable: true,
        heap_type: WireHeapType::Extern,
    });
    assert_eq!(type_to_type(externref, &config), Ok(IrType::R64));
    let typed = WireValType::Ref(WireRefType {
        nullable: true,
        heap_type: WireHeapType::TypedFunc(0),
    });
    assert_eq!(type_to_type(typed, &config), Err(WasmError::InvalidType));
}

#[test]
fn table_element_types() {
    let config = config64();
    assert_eq!(
        tabletype_to_type(WireValType::I64, &config),
        Ok(Some(IrType::I64))
    );
    let externref = WireValType::Ref(WireRefType {
        nullable: true,
        heap_type: WireHeapType::Extern,
    });
    assert_eq!(tabletype_to_type(externref, &config), Ok(Some(IrType::R64)));
    // A non-extern heap type makes a function table.
    let funcref = WireValType::Ref(WireRefType {
        nullable: true,
        heap_type: WireHeapType::Func,
    });
    assert_eq!(tabletype_to_type(funcref, &config), Ok(None));
    assert_eq!(TableElementType::Func, TableElementType::Func);
}

#[test]
fn blocktype_resolution() {
    let types = vec![WireFuncType {
        params: vec![WireValType::I32, WireValType::I64],
        results: vec![WireValType::F32],
    }];
    let (params, results) = blocktype_params_results(&types, WireBlockType::Empty).unwrap();
    assert!(params.is_empty());
    assert!(results.is_empty());
    let (params, results) =
        blocktype_params_results(&types, WireBlockType::Type(WireValType::I32)).unwrap();
    assert!(params.is_empty());
    assert_eq!(results, vec![WireValType::I32]);
    let (params, results) =
        blocktype_params_results(&types, WireBlockType::FuncType(0)).unwrap();
    assert_eq!(params, vec![WireValType::I32, WireValType::I64]);
    assert_eq!(results, vec![WireValType::F32]);
}

#[test]
fn block_construction() {
    let config = config64();
    let mut func = Function::with_name_signature(
        UserFuncName::user(0, 0),
        Signature::new(CallConv::Fast),
    );
    let params = vec![
        WireValType::I32,
        WireValType::Ref(WireRefType {
            nullable: true,
            heap_type: WireHeapType::TypedFunc(5),
        }),
        WireValType::V128,
    ];
    let block = block_with_params(&mut func, &params, &config).unwrap();
    assert_eq!(block.0, 0);
    // A typed reference gets the plain reference representation here.
    assert_eq!(
        func.blocks[0],
        vec![IrType::I32, IrType::R64, IrType::I8X16]
    );
    assert_eq!(func.num_values, 3);
}

#[test]
fn float_immediates_move_bits() {
    assert_eq!(f32_translation(0x4048_F5C3).bits, 0x4048_F5C3);
    assert_eq!(f64_translation(0x4009_21FB_5444_2D18).bits, 0x4009_21FB_5444_2D18);
}

#[test]
fn vmctx_label_sentinel() {
    assert_eq!(get_vmctx_value_label().0, 0xFFFF_FFFE);
}
