use wasmcont::module::Module;
use wasmcont::types::{
    DefinedGlobalIndex, DefinedMemoryIndex, DefinedTableIndex, FuncIndex, FuncRefIndex,
    GlobalIndex, MemoryIndex, OwnedMemoryIndex, TableIndex,
};
use wasmcont::types::{Memory, Table, WasmHeapType, WasmRefType};
use wasmcont::vmoffsets::{
    align, cast_to_u32, HostPtr, PtrSize, VMOffsets, VMOffsetsFields, VMCONTEXT_MAGIC,
    VM_ARRAY_CALL_HOST_FUNC_MAGIC, VM_NATIVE_CALL_HOST_FUNC_MAGIC,
};

#[test]
fn alignment() {
    assert!(align(0, 16) % 16 == 0);
    assert!(align(32, 16) % 16 == 0);
    assert!(align(33, 16) % 16 == 0);
    assert!(align(31, 16) % 16 == 0);
}

fn fields_with_counts(counts: [u32; 9]) -> VMOffsetsFields<u8> {
    VMOffsetsFields {
        ptr: 8,
        num_imported_functions: counts[0],
        num_imported_tables: counts[1],
        num_imported_memories: counts[2],
        num_imported_globals: counts[3],
        num_defined_tables: counts[4],
        num_defined_memories: counts[5],
        num_owned_memories: counts[6],
        num_defined_globals: counts[7],
        num_escaped_funcs: counts[8],
    }
}

#[test]
fn layout_empty_module_64bit() {
    let offsets = VMOffsets::from(fields_with_counts([0; 9]));
    assert_eq!(offsets.vmctx_magic(), 0);
    assert_eq!(offsets.vmctx_runtime_limits(), 8);
    assert_eq!(offsets.vmctx_callee(), 16);
    assert_eq!(offsets.vmctx_epoch_ptr(), 24);
    assert_eq!(offsets.vmctx_externref_activations_table(), 32);
    assert_eq!(offsets.vmctx_store(), 40);
    assert_eq!(offsets.vmctx_builtin_functions(), 56);
    assert_eq!(offsets.vmctx_signature_ids_array(), 64);
    assert_eq!(offsets.vmctx_imported_functions_begin(), 72);
    assert_eq!(offsets.vmctx_imported_tables_begin(), 72);
    assert_eq!(offsets.vmctx_imported_memories_begin(), 72);
    assert_eq!(offsets.vmctx_imported_globals_begin(), 72);
    assert_eq!(offsets.vmctx_tables_begin(), 72);
    assert_eq!(offsets.vmctx_memories_begin(), 72);
    assert_eq!(offsets.vmctx_owned_memories_begin(), 72);
    assert_eq!(offsets.vmctx_globals_begin(), 80);
    assert_eq!(offsets.vmctx_func_refs_begin(), 80);
    assert_eq!(offsets.vmctx_typed_continuations_store(), 80);
    assert_eq!(offsets.vmctx_typed_continuations_payloads_ptr(), 88);
    assert_eq!(offsets.size_of_vmctx(), 96);
}

#[test]
fn layout_one_imported_function_64bit() {
    let offsets = VMOffsets::from(fields_with_counts([1, 0, 0, 0, 0, 0, 0, 0, 0]));
    assert_eq!(offsets.vmctx_imported_functions_begin(), 72);
    assert_eq!(offsets.vmctx_imported_tables_begin(), 72 + 32);
    assert_eq!(offsets.vmctx_imported_memories_begin(), 104);
    assert_eq!(offsets.vmctx_imported_globals_begin(), 104);
    assert_eq!(offsets.vmctx_tables_begin(), 104);
    assert_eq!(offsets.vmctx_memories_begin(), 104);
    assert_eq!(offsets.vmctx_owned_memories_begin(), 104);
    assert_eq!(offsets.vmctx_globals_begin(), 112);
    assert_eq!(offsets.vmctx_func_refs_begin(), 112);
    assert_eq!(offsets.vmctx_typed_continuations_store(), 112);
    assert_eq!(offsets.vmctx_typed_continuations_payloads_ptr(), 120);
    assert_eq!(offsets.size_of_vmctx(), 128);
}

#[test]
fn region_sizes_sum_to_total() {
    let offsets = VMOffsets::from(fields_with_counts([2, 1, 1, 3, 2, 1, 1, 4, 5]));
    let regions = offsets.region_sizes();
    assert_eq!(regions.len(), 19);
    let total: u32 = regions.iter().map(|r| r.1).sum();
    assert_eq!(total, offsets.size_of_vmctx());
}

#[test]
fn region_sizes_descriptions() {
    let offsets = VMOffsets::from(fields_with_counts([0; 9]));
    let regions = offsets.region_sizes();
    assert_eq!(regions[0].0, "typed continuations payloads");
    assert_eq!(regions[1].0, "typed continuations store");
    assert_eq!(regions[18].0, "magic value");
    assert_eq!(regions[18].1, 8);
}

#[test]
fn indexed_accessors_use_record_strides() {
    let offsets = VMOffsets::from(fields_with_counts([2, 2, 2, 2, 2, 2, 2, 2, 2]));
    let base = offsets.vmctx_imported_functions_begin();
    assert_eq!(offsets.vmctx_vmfunction_import(FuncIndex(0)), base);
    assert_eq!(offsets.vmctx_vmfunction_import(FuncIndex(1)), base + 32);
    assert_eq!(
        offsets.vmctx_vmfunction_import_wasm_call(FuncIndex(1)),
        base + 32
    );
    assert_eq!(
        offsets.vmctx_vmfunction_import_native_call(FuncIndex(1)),
        base + 40
    );
    assert_eq!(
        offsets.vmctx_vmfunction_import_array_call(FuncIndex(1)),
        base + 48
    );
    assert_eq!(
        offsets.vmctx_vmfunction_import_vmctx(FuncIndex(1)),
        base + 56
    );
    let tbase = offsets.vmctx_imported_tables_begin();
    assert_eq!(offsets.vmctx_vmtable_import(TableIndex(1)), tbase + 16);
    assert_eq!(offsets.vmctx_vmtable_import_from(TableIndex(1)), tbase + 16);
    let mbase = offsets.vmctx_imported_memories_begin();
    assert_eq!(offsets.vmctx_vmmemory_import(MemoryIndex(1)), mbase + 24);
    assert_eq!(
        offsets.vmctx_vmmemory_import_vmctx(MemoryIndex(1)),
        mbase + 24 + 8
    );
    let gbase = offsets.vmctx_imported_globals_begin();
    assert_eq!(offsets.vmctx_vmglobal_import(GlobalIndex(1)), gbase + 8);
    assert_eq!(offsets.vmctx_vmglobal_import_from(GlobalIndex(1)), gbase + 8);
    let dtbase = offsets.vmctx_tables_begin();
    assert_eq!(
        offsets.vmctx_vmtable_definition(DefinedTableIndex(1)),
        dtbase + 16
    );
    assert_eq!(
        offsets.vmctx_vmtable_definition_base(DefinedTableIndex(1)),
        dtbase + 16
    );
    assert_eq!(
        offsets.vmctx_vmtable_definition_current_elements(DefinedTableIndex(1)),
        dtbase + 24
    );
    let dmbase = offsets.vmctx_memories_begin();
    assert_eq!(
        offsets.vmctx_vmmemory_pointer(DefinedMemoryIndex(1)),
        dmbase + 8
    );
    let ombase = offsets.vmctx_owned_memories_begin();
    assert_eq!(
        offsets.vmctx_vmmemory_definition(OwnedMemoryIndex(1)),
        ombase + 16
    );
    assert_eq!(
        offsets.vmctx_vmmemory_definition_base(OwnedMemoryIndex(1)),
        ombase + 16
    );
    assert_eq!(
        offsets.vmctx_vmmemory_definition_current_length(OwnedMemoryIndex(1)),
        ombase + 24
    );
    let dgbase = offsets.vmctx_globals_begin();
    assert_eq!(
        offsets.vmctx_vmglobal_definition(DefinedGlobalIndex(1)),
        dgbase + 16
    );
    let frbase = offsets.vmctx_func_refs_begin();
    assert_eq!(offsets.vmctx_func_ref(FuncRefIndex(1)), frbase + 40);
}

#[test]
fn record_sizes_64bit() {
    let offsets = VMOffsets::from(fields_with_counts([0; 9]));
    assert_eq!(offsets.pointer_size(), 8);
    assert_eq!(offsets.vmfunction_import_wasm_call(), 0);
    assert_eq!(offsets.vmfunction_import_native_call(), 8);
    assert_eq!(offsets.vmfunction_import_array_call(), 16);
    assert_eq!(offsets.vmfunction_import_vmctx(), 24);
    assert_eq!(offsets.size_of_vmfunction_import(), 32);
    assert_eq!(offsets.size_of_vmfunction_body_ptr(), 8);
    assert_eq!(offsets.vmtable_import_from(), 0);
    assert_eq!(offsets.vmtable_import_vmctx(), 8);
    assert_eq!(offsets.size_of_vmtable_import(), 16);
    assert_eq!(offsets.vmtable_definition_base(), 0);
    assert_eq!(offsets.vmtable_definition_current_elements(), 8);
    assert_eq!(offsets.size_of_vmtable_definition_current_elements(), 4);
    assert_eq!(offsets.size_of_vmtable_definition(), 16);
    assert_eq!(offsets.vmmemory_import_from(), 0);
    assert_eq!(offsets.vmmemory_import_vmctx(), 8);
    assert_eq!(offsets.size_of_vmmemory_import(), 24);
    assert_eq!(offsets.vmglobal_import_from(), 0);
    assert_eq!(offsets.size_of_vmglobal_import(), 8);
    assert_eq!(offsets.size_of_vmshared_signature_index(), 4);
    assert_eq!(offsets.vm_extern_data_ref_count(), 0);
    assert_eq!(offsets.vm_extern_ref_activation_table_next(), 0);
    assert_eq!(offsets.vm_extern_ref_activation_table_end(), 8);
}

#[test]
fn ptr_size_trait_on_bytes() {
    let p: u8 = 8;
    assert_eq!(p.size(), 8);
    assert_eq!(p.vmcontext_runtime_limits(), 8);
    assert_eq!(p.vm_func_ref_native_call(), 0);
    assert_eq!(p.vm_func_ref_array_call(), 8);
    assert_eq!(p.vm_func_ref_wasm_call(), 16);
    assert_eq!(p.vm_func_ref_type_index(), 24);
    assert_eq!(p.vm_func_ref_vmctx(), 32);
    assert_eq!(p.size_of_vm_func_ref(), 40);
    assert_eq!(p.size_of_vmglobal_definition(), 16);
    assert_eq!(p.maximum_value_size(), 16);
    assert_eq!(p.vmruntime_limits_stack_limit(), 0);
    assert_eq!(p.vmruntime_limits_fuel_consumed(), 8);
    assert_eq!(p.vmruntime_limits_epoch_deadline(), 16);
    assert_eq!(p.vmruntime_limits_last_wasm_exit_fp(), 24);
    assert_eq!(p.vmruntime_limits_last_wasm_exit_pc(), 32);
    assert_eq!(p.vmruntime_limits_last_wasm_entry_sp(), 40);
    assert_eq!(p.vmmemory_definition_base(), 0);
    assert_eq!(p.vmmemory_definition_current_length(), 8);
    assert_eq!(p.size_of_vmmemory_definition(), 16);
    assert_eq!(p.size_of_vmmemory_pointer(), 8);
    assert_eq!(p.vmnative_call_host_func_context_func_ref(), 8);
}

#[test]
fn layout_32bit_pointers() {
    let mut fields = fields_with_counts([0; 9]);
    fields.ptr = 4;
    let offsets = VMOffsets::from(fields);
    assert_eq!(offsets.vmctx_magic(), 0);
    assert_eq!(offsets.vmctx_runtime_limits(), 4);
    assert_eq!(offsets.vmctx_callee(), 8);
    assert_eq!(offsets.vmctx_store(), 20);
    assert_eq!(offsets.vmctx_builtin_functions(), 28);
    assert_eq!(offsets.size_of_vmctx() % 16, 0);
}

#[test]
fn new_reads_counts_from_module() {
    let funcref = WasmRefType {
        nullable: true,
        heap_type: WasmHeapType::Func,
    };
    let module = Module {
        num_imported_funcs: 1,
        num_imported_tables: 0,
        num_imported_memories: 1,
        num_imported_globals: 0,
        table_plans: vec![Table {
            wasm_ty: funcref,
            minimum: 0,
            maximum: None,
        }],
        memory_plans: vec![
            Memory {
                minimum: 1,
                maximum: None,
                shared: false,
                memory64: false,
            },
            Memory {
                minimum: 1,
                maximum: None,
                shared: true,
                memory64: false,
            },
            Memory {
                minimum: 1,
                maximum: None,
                shared: false,
                memory64: false,
            },
        ],
        globals: vec![],
        num_escaped_funcs: 2,
    };
    let offsets = VMOffsets::new(8u8, &module);
    assert_eq!(offsets.num_imported_functions, 1);
    assert_eq!(offsets.num_imported_tables, 0);
    assert_eq!(offsets.num_imported_memories, 1);
    assert_eq!(offsets.num_imported_globals, 0);
    assert_eq!(offsets.num_defined_tables, 1);
    assert_eq!(offsets.num_defined_memories, 2);
    // Of the two defined memories, only the unshared one is owned.
    assert_eq!(offsets.num_owned_memories, 1);
    assert_eq!(offsets.num_defined_globals, 0);
    assert_eq!(offsets.num_escaped_funcs, 2);
}

#[test]
fn magic_values_spell_their_names() {
    assert_eq!(VMCONTEXT_MAGIC, u32::from_le_bytes(*b"core"));
    assert_eq!(VM_ARRAY_CALL_HOST_FUNC_MAGIC, u32::from_le_bytes(*b"ACHF"));
    assert_eq!(VM_NATIVE_CALL_HOST_FUNC_MAGIC, u32::from_le_bytes(*b"NCHF"));
    assert_eq!(cast_to_u32(12usize), 12u32);
}

#[test]
fn monotone_placement_concrete() {
    // Every field ends at or before the next one begins.
    let o = VMOffsets::from(fields_with_counts([3, 2, 2, 5, 1, 2, 2, 4, 6]));
    let p = o.pointer_size() as u32;
    assert!(o.vmctx_magic() + 4 <= o.vmctx_runtime_limits());
    assert!(o.vmctx_runtime_limits() + p <= o.vmctx_callee());
    assert!(o.vmctx_callee() + p <= o.vmctx_epoch_ptr());
    assert!(o.vmctx_epoch_ptr() + p <= o.vmctx_externref_activations_table());
    assert!(o.vmctx_externref_activations_table() + p <= o.vmctx_store());
    assert!(o.vmctx_store() + 2 * p <= o.vmctx_builtin_functions());
    assert!(o.vmctx_builtin_functions() + p <= o.vmctx_signature_ids_array());
    assert!(o.vmctx_signature_ids_array() + p <= o.vmctx_imported_functions_begin());
    assert!(o.vmctx_imported_functions_begin() + 3 * 4 * p <= o.vmctx_imported_tables_begin());
    assert!(o.vmctx_imported_tables_begin() + 2 * 2 * p <= o.vmctx_imported_memories_begin());
    assert!(o.vmctx_imported_memories_begin() + 2 * 3 * p <= o.vmctx_imported_globals_begin());
    assert!(o.vmctx_imported_globals_begin() + 5 * p <= o.vmctx_tables_begin());
    assert!(o.vmctx_tables_begin() + 1 * 2 * p <= o.vmctx_memories_begin());
    assert!(o.vmctx_memories_begin() + 2 * p <= o.vmctx_owned_memories_begin());
    assert!(o.vmctx_owned_memories_begin() + 2 * 2 * p <= o.vmctx_globals_begin());
    assert!(o.vmctx_globals_begin() + 4 * 16 <= o.vmctx_func_refs_begin());
    assert!(o.vmctx_func_refs_begin() + 6 * 5 * p <= o.vmctx_typed_continuations_store());
    assert!(o.vmctx_typed_continuations_store() + p <= o.vmctx_typed_continuations_payloads_ptr());
    assert!(o.vmctx_typed_continuations_payloads_ptr() + p <= o.size_of_vmctx());
}

#[test]
fn alignment_concrete() {
    // Pointer-typed field offsets are multiples of the pointer size; the
    // defined-globals array and the total size are multiples of 16.
    let o = VMOffsets::from(fields_with_counts([3, 2, 2, 5, 1, 2, 2, 4, 6]));
    let p = o.pointer_size() as u32;
    for off in [
        o.vmctx_runtime_limits(),
        o.vmctx_callee(),
        o.vmctx_epoch_ptr(),
        o.vmctx_externref_activations_table(),
        o.vmctx_store(),
        o.vmctx_builtin_functions(),
        o.vmctx_signature_ids_array(),
        o.vmctx_imported_functions_begin(),
        o.vmctx_imported_tables_begin(),
        o.vmctx_imported_memories_begin(),
        o.vmctx_imported_globals_begin(),
        o.vmctx_tables_begin(),
        o.vmctx_memories_begin(),
        o.vmctx_owned_memories_begin(),
        o.vmctx_globals_begin(),
        o.vmctx_func_refs_begin(),
        o.vmctx_typed_continuations_store(),
        o.vmctx_typed_continuations_payloads_ptr(),
    ] {
        assert_eq!(off % p, 0);
    }
    assert_eq!(o.vmctx_globals_begin() % 16, 0);
    assert_eq!(o.size_of_vmctx() % 16, 0);
}

#[test]
fn host_pointer_width() {
    let host = HostPtr;
    assert_eq!(host.size() as usize, core::mem::size_of::<usize>());
}
