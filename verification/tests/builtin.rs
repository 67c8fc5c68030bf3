use wasmcont::builtin::BuiltinFunctionIndex;

#[test]
fn builtin_indices_are_stable() {
    // The canonical ordered list: the i-th helper resolves to index i.
    let list = BuiltinFunctionIndex::builtin_index_list();
    assert_eq!(
        list.len() as u32,
        BuiltinFunctionIndex::builtin_functions_total_number()
    );
    for (i, idx) in list.iter().enumerate() {
        assert_eq!(idx.index(), i as u32);
    }
}

#[test]
fn builtin_helper_indices() {
    assert_eq!(BuiltinFunctionIndex::memory32_grow().index(), 0);
    assert_eq!(BuiltinFunctionIndex::table_copy().index(), 1);
    assert_eq!(BuiltinFunctionIndex::ref_func().index(), 7);
    assert_eq!(BuiltinFunctionIndex::new_epoch().index(), 22);
    assert_eq!(BuiltinFunctionIndex::cont_new().index(), 23);
    assert_eq!(BuiltinFunctionIndex::resume().index(), 24);
    assert_eq!(BuiltinFunctionIndex::suspend().index(), 25);
    assert_eq!(BuiltinFunctionIndex::cont_obj_get_payloads().index(), 26);
    assert_eq!(BuiltinFunctionIndex::cont_ref_get_cont_obj().index(), 31);
    assert_eq!(BuiltinFunctionIndex::new_cont_ref().index(), 32);
    assert_eq!(BuiltinFunctionIndex::alllocate_payload_buffer().index(), 33);
    assert_eq!(
        BuiltinFunctionIndex::dealllocate_payload_buffer().index(),
        34
    );
    assert_eq!(BuiltinFunctionIndex::builtin_functions_total_number(), 35);
}

#[test]
fn builtin_index_round_trip() {
    let idx = BuiltinFunctionIndex::from_u32(17);
    assert_eq!(idx.index(), 17);
    assert_eq!(idx, BuiltinFunctionIndex::externref_global_set());
}
