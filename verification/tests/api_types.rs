use wasmcont::api_types::{
    ExportType, ExternType, FuncType, GlobalType, HeapType, ImportType, MemoryType, ModuleTypes,
    Mutability, RefType, TableType, ValType,
};
use wasmcont::types::{EntityType, SignatureIndex, WasmFuncType, WasmType};

#[test]
fn val_type_predicates() {
    assert!(ValType::I32.is_num());
    assert!(ValType::F64.is_num());
    assert!(!ValType::V128.is_num());
    let r = ValType::Ref(RefType {
        nullable: true,
        heap_type: HeapType::Extern,
    });
    assert!(r.is_ref());
    assert!(!r.is_num());
    assert!(!ValType::I64.is_ref());
}

#[test]
fn val_type_round_trip() {
    let tys = vec![
        ValType::I32,
        ValType::I64,
        ValType::F32,
        ValType::F64,
        ValType::V128,
        ValType::Ref(RefType {
            nullable: false,
            heap_type: HeapType::ContIndex(3),
        }),
    ];
    for ty in tys {
        let wasm = ty.to_wasm_type();
        assert_eq!(ValType::from_wasm_type(&wasm), ty);
    }
}

#[test]
fn func_type_descriptor() {
    let ft = FuncType::new(vec![ValType::I32, ValType::I32], vec![ValType::I64]);
    assert_eq!(ft.params(), vec![ValType::I32, ValType::I32]);
    assert_eq!(ft.results(), vec![ValType::I64]);
    assert_eq!(ft.as_wasm_func_type().params.len(), 2);
    let back = FuncType::from_wasm_func_type(WasmFuncType::new(
        vec![WasmType::F32],
        vec![],
    ));
    assert_eq!(back.params(), vec![ValType::F32]);
}

#[test]
fn global_type_descriptor() {
    let g = GlobalType::new(ValType::I32, Mutability::Var);
    assert_eq!(*g.content(), ValType::I32);
    assert_eq!(g.mutability(), Mutability::Var);
    let internal = wasmcont::types::Global {
        wasm_ty: WasmType::F64,
        mutability: false,
        initializer: wasmcont::types::GlobalInit::F64Const(0),
    };
    let g2 = GlobalType::from_wasmtime_global(&internal);
    assert_eq!(*g2.content(), ValType::F64);
    assert_eq!(g2.mutability(), Mutability::Const);
}

#[test]
fn table_type_descriptor() {
    let element = RefType {
        nullable: true,
        heap_type: HeapType::Func,
    };
    let t = TableType::new(element, 2, Some(10));
    assert_eq!(t.element(), element);
    assert_eq!(t.minimum(), 2);
    assert_eq!(t.maximum(), Some(10));
    let back = TableType::from_wasmtime_table(t.wasmtime_table());
    assert_eq!(back, t);
}

#[test]
fn memory_type_descriptor() {
    let m = MemoryType::new(1, Some(4));
    assert!(!m.is_64());
    assert!(!m.is_shared());
    assert_eq!(m.minimum(), 1);
    assert_eq!(m.maximum(), Some(4));
    let m64 = MemoryType::new64(5, None);
    assert!(m64.is_64());
    assert_eq!(m64.maximum(), None);
    let shared = MemoryType::shared(1, 8);
    assert!(shared.is_shared());
    assert_eq!(shared.maximum(), Some(8));
    let back = MemoryType::from_wasmtime_memory(shared.wasmtime_memory());
    assert_eq!(back, shared);
}

#[test]
fn extern_type_accessors() {
    let types = ModuleTypes {
        wasm_signatures: vec![WasmFuncType::new(vec![WasmType::I32], vec![])],
    };
    let func_entity = EntityType::Function(SignatureIndex(0));
    let ext = ExternType::from_wasmtime(&types, &func_entity);
    let f = ext.func().expect("a function type");
    assert_eq!(f.params(), vec![ValType::I32]);
    assert!(ext.global().is_none());
    assert!(ext.table().is_none());
    assert!(ext.memory().is_none());

    let mem_entity = EntityType::Memory(wasmcont::types::Memory {
        minimum: 1,
        maximum: None,
        shared: false,
        memory64: false,
    });
    let ext = ExternType::from_wasmtime(&types, &mem_entity);
    assert!(ext.memory().is_some());
}

#[test]
fn import_and_export_descriptors() {
    let types = ModuleTypes {
        wasm_signatures: vec![WasmFuncType::new(vec![], vec![])],
    };
    let import = ImportType::new(
        "env".to_string(),
        "callback".to_string(),
        EntityType::Function(SignatureIndex(0)),
    );
    assert_eq!(import.module(), "env");
    assert_eq!(import.name(), "callback");
    assert!(import.ty(&types).func().is_some());
    let export = ExportType::new(
        "run".to_string(),
        EntityType::Global(wasmcont::types::Global {
            wasm_ty: WasmType::I32,
            mutability: false,
            initializer: wasmcont::types::GlobalInit::I32Const(0),
        }),
    );
    assert_eq!(export.name(), "run");
    assert!(export.ty(&types).global().is_some());
}

#[test]
fn embedder_textual_convention() {
    assert_eq!(ValType::I64.text(), "i64");
    let externref = ValType::Ref(RefType {
        nullable: true,
        heap_type: HeapType::Extern,
    });
    assert_eq!(externref.text(), "externref");
    assert_eq!(HeapType::FuncIndex(12).text(), "12");
    let typed = RefType {
        nullable: true,
        heap_type: HeapType::ContIndex(1),
    };
    assert_eq!(typed.text(), "(ref null 1)");
}
