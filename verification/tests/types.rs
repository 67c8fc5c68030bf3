use wasmcont::types::{
    decimal_string, FuncIndex, FuncRefIndex, Global, GlobalInit, Memory, Table, Tag, TypeIndex,
    WasmError, WasmFuncType, WasmHeapType, WasmRefType, WasmType,
};
use wasmcont::wire::{
    WireFuncType, WireGlobalType, WireHeapType, WireMemoryType, WireRefType, WireTableType,
    WireTagKind, WireTagType, WireType, WireValType,
};

fn wire_externref() -> WireValType {
    WireValType::Ref(WireRefType {
        nullable: true,
        heap_type: WireHeapType::Extern,
    })
}

#[test]
fn val_type_conversion_without_table() {
    assert_eq!(WasmType::try_from(WireValType::I32), Ok(WasmType::I32));
    assert_eq!(WasmType::try_from(WireValType::I64), Ok(WasmType::I64));
    assert_eq!(WasmType::try_from(WireValType::F32), Ok(WasmType::F32));
    assert_eq!(WasmType::try_from(WireValType::F64), Ok(WasmType::F64));
    assert_eq!(WasmType::try_from(WireValType::V128), Ok(WasmType::V128));
    assert_eq!(
        WasmType::try_from(wire_externref()),
        Ok(WasmType::Ref(WasmRefType {
            nullable: true,
            heap_type: WasmHeapType::Extern,
        }))
    );
    // An index constructor cannot be resolved without a type table.
    let typed = WireValType::Ref(WireRefType {
        nullable: false,
        heap_type: WireHeapType::TypedFunc(2),
    });
    assert_eq!(WasmType::try_from(typed), Err(WasmError::InvalidType));
}

#[test]
fn heap_type_resolution_against_type_table() {
    let types = vec![
        WireType::Func(WireFuncType {
            params: vec![],
            results: vec![],
        }),
        WireType::Cont(0),
    ];
    assert_eq!(
        WasmHeapType::from_heap_type(WireHeapType::TypedFunc(0), &types),
        Ok(WasmHeapType::FuncIndex(0))
    );
    assert_eq!(
        WasmHeapType::from_heap_type(WireHeapType::TypedFunc(1), &types),
        Ok(WasmHeapType::ContIndex(1))
    );
    assert_eq!(
        WasmHeapType::from_heap_type(WireHeapType::TypedFunc(2), &types),
        Err(WasmError::IndexOutOfBounds)
    );
    assert_eq!(
        WasmHeapType::from_heap_type(WireHeapType::Bot, &types),
        Ok(WasmHeapType::Bot)
    );
}

#[test]
fn wire_round_trip_of_internal_types() {
    let ty = WasmType::Ref(WasmRefType {
        nullable: false,
        heap_type: WasmHeapType::ContIndex(7),
    });
    let wire = WireValType::from(ty);
    assert_eq!(
        wire,
        WireValType::Ref(WireRefType {
            nullable: false,
            heap_type: WireHeapType::TypedFunc(7),
        })
    );
}

#[test]
fn func_type_counts_externrefs() {
    let externref = WasmType::Ref(WasmRefType {
        nullable: true,
        heap_type: WasmHeapType::Extern,
    });
    let funcref = WasmType::Ref(WasmRefType {
        nullable: true,
        heap_type: WasmHeapType::Func,
    });
    let ft = WasmFuncType::new(
        vec![WasmType::I32, externref, funcref, externref],
        vec![externref, WasmType::I64],
    );
    assert_eq!(ft.params().len(), 4);
    assert_eq!(ft.results().len(), 2);
    assert_eq!(ft.externref_params_count(), 2);
    assert_eq!(ft.externref_results_count(), 1);
}

#[test]
fn func_type_from_wire_resolves_and_counts() {
    let types = vec![WireType::Func(WireFuncType {
        params: vec![],
        results: vec![],
    })];
    let wire_ft = WireFuncType {
        params: vec![
            WireValType::I32,
            wire_externref(),
            WireValType::Ref(WireRefType {
                nullable: false,
                heap_type: WireHeapType::TypedFunc(0),
            }),
        ],
        results: vec![wire_externref()],
    };
    let ft = WasmFuncType::from_func_type(&wire_ft, &types).unwrap();
    assert_eq!(ft.params().len(), 3);
    assert_eq!(
        ft.params()[2],
        WasmType::Ref(WasmRefType {
            nullable: false,
            heap_type: WasmHeapType::FuncIndex(0),
        })
    );
    assert_eq!(ft.externref_params_count(), 1);
    assert_eq!(ft.externref_results_count(), 1);
    // Without the table, the same wire type is rejected.
    assert_eq!(
        WasmFuncType::try_from(&wire_ft).unwrap_err(),
        WasmError::InvalidType
    );
}

#[test]
fn entity_conversions() {
    let global = Global::new(
        WireGlobalType {
            content_type: WireValType::I64,
            mutable: true,
        },
        GlobalInit::I64Const(-5),
    )
    .unwrap();
    assert_eq!(global.wasm_ty, WasmType::I64);
    assert!(global.mutability);
    assert_eq!(global.initializer, GlobalInit::I64Const(-5));

    let table = Table::try_from(WireTableType {
        element_type: WireRefType {
            nullable: true,
            heap_type: WireHeapType::Func,
        },
        initial: 4,
        maximum: Some(16),
    })
    .unwrap();
    assert_eq!(table.minimum, 4);
    assert_eq!(table.maximum, Some(16));
    assert_eq!(table.wasm_ty.heap_type, WasmHeapType::Func);

    let memory = Memory::from(WireMemoryType {
        initial: 2,
        maximum: None,
        shared: false,
        memory64: true,
    });
    assert_eq!(memory.minimum, 2);
    assert!(memory.memory64);
    assert!(!memory.shared);

    let tag = Tag::from(WireTagType {
        kind: WireTagKind::Exception,
        func_type_idx: 9,
    });
    assert_eq!(tag.ty, TypeIndex(9));
}

#[test]
fn index_types_round_trip() {
    let f = FuncIndex::new(7);
    assert_eq!(f.as_u32(), 7);
    assert_eq!(f.index(), 7);
    assert_eq!(FuncIndex::from_u32(7), f);
    let fr = FuncRefIndex::reserved_value();
    assert!(fr.is_reserved_value());
    assert!(!FuncRefIndex::from_u32(3).is_reserved_value());
}

#[test]
fn textual_convention() {
    assert_eq!(WasmType::I32.text(), "i32");
    assert_eq!(WasmType::V128.text(), "v128");
    let externref = WasmType::Ref(WasmRefType {
        nullable: true,
        heap_type: WasmHeapType::Extern,
    });
    assert_eq!(externref.text(), "externref");
    let funcref = WasmType::Ref(WasmRefType {
        nullable: true,
        heap_type: WasmHeapType::Func,
    });
    assert_eq!(funcref.text(), "funcref");
    let typed = WasmType::Ref(WasmRefType {
        nullable: true,
        heap_type: WasmHeapType::FuncIndex(42),
    });
    assert_eq!(typed.text(), "(ref null 42)");
    let typed_non_null = WasmType::Ref(WasmRefType {
        nullable: false,
        heap_type: WasmHeapType::ContIndex(305),
    });
    assert_eq!(typed_non_null.text(), "(ref 305)");
    assert_eq!(WasmHeapType::Bot.text(), "bot");
    assert_eq!(decimal_string(0), "0");
    assert_eq!(decimal_string(10), "10");
    assert_eq!(decimal_string(4294967295), "4294967295");
}
