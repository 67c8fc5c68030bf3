//! The registry of builtin functions: runtime helpers that generated code
//! calls through the builtins pointer array of its `VMContext`.
//!
//! Every helper owns a dense index that is stable across runs and is part
//! of the ABI of compiled artifacts; the canonical order below assigns
//! them.

use vstd::prelude::*;

verus! {

/// An index type for builtin functions.
#[derive(Copy, Clone, Debug, PartialEq, Eq, Structural)]
pub struct BuiltinFunctionIndex(pub u32);

impl BuiltinFunctionIndex {
    /// Create a new `BuiltinFunctionIndex` from its index.
    pub fn from_u32(i: u32) -> (r: Self)
        ensures
            r.0 == i,
    {
        Self(i)
    }

    /// Return the index as a `u32` number.
    pub fn index(&self) -> (r: u32)
        ensures
            r == self.0,
    {
        self.0
    }

    /// Index of the helper for wasm's `memory.grow`.
    pub fn memory32_grow() -> (r: Self)
        ensures
            r.0 == 0,
    {
        Self(0)
    }

    /// Index of the helper for wasm's `table.copy` between two locally
    /// defined tables.
    pub fn table_copy() -> (r: Self)
        ensures
            r.0 == 1,
    {
        Self(1)
    }

    /// Index of the helper for wasm's `table.init`.
    pub fn table_init() -> (r: Self)
        ensures
            r.0 == 2,
    {
        Self(2)
    }

    /// Index of the helper for wasm's `elem.drop`.
    pub fn elem_drop() -> (r: Self)
        ensures
            r.0 == 3,
    {
        Self(3)
    }

    /// Index of the helper for wasm's `memory.copy`.
    pub fn memory_copy() -> (r: Self)
        ensures
            r.0 == 4,
    {
        Self(4)
    }

    /// Index of the helper for wasm's `memory.fill`.
    pub fn memory_fill() -> (r: Self)
        ensures
            r.0 == 5,
    {
        Self(5)
    }

    /// Index of the helper for wasm's `memory.init`.
    pub fn memory_init() -> (r: Self)
        ensures
            r.0 == 6,
    {
        Self(6)
    }

    /// Index of the helper for wasm's `ref.func`.
    pub fn ref_func() -> (r: Self)
        ensures
            r.0 == 7,
    {
        Self(7)
    }

    /// Index of the helper for wasm's `data.drop`.
    pub fn data_drop() -> (r: Self)
        ensures
            r.0 == 8,
    {
        Self(8)
    }

    /// Index of the helper that lazily initializes a table entry and
    /// returns it.
    pub fn table_get_lazy_init_func_ref() -> (r: Self)
        ensures
            r.0 == 9,
    {
        Self(9)
    }

    /// Index of the helper for wasm's `table.grow` on `funcref` tables.
    pub fn table_grow_func_ref() -> (r: Self)
        ensures
            r.0 == 10,
    {
        Self(10)
    }

    /// Index of the helper for wasm's `table.grow` on `externref` tables.
    pub fn table_grow_externref() -> (r: Self)
        ensures
            r.0 == 11,
    {
        Self(11)
    }

    /// Index of the helper for wasm's `table.fill` on `externref` tables.
    pub fn table_fill_externref() -> (r: Self)
        ensures
            r.0 == 12,
    {
        Self(12)
    }

    /// Index of the helper for wasm's `table.fill` on `funcref` tables.
    pub fn table_fill_func_ref() -> (r: Self)
        ensures
            r.0 == 13,
    {
        Self(13)
    }

    /// Index of the helper that drops an `externref`.
    pub fn drop_externref() -> (r: Self)
        ensures
            r.0 == 14,
    {
        Self(14)
    }

    /// Index of the helper that garbage-collects and then inserts an
    /// `externref` into the activations table.
    pub fn activations_table_insert_with_gc() -> (r: Self)
        ensures
            r.0 == 15,
    {
        Self(15)
    }

    /// Index of the helper for wasm's `global.get` on `externref`
    /// globals.
    pub fn externref_global_get() -> (r: Self)
        ensures
            r.0 == 16,
    {
        Self(16)
    }

    /// Index of the helper for wasm's `global.set` on `externref`
    /// globals.
    pub fn externref_global_set() -> (r: Self)
        ensures
            r.0 == 17,
    {
        Self(17)
    }

    /// Index of the helper for wasm's `memory.atomic.notify`.
    pub fn memory_atomic_notify() -> (r: Self)
        ensures
            r.0 == 18,
    {
        Self(18)
    }

    /// Index of the helper for wasm's `memory.atomic.wait32`.
    pub fn memory_atomic_wait32() -> (r: Self)
        ensures
            r.0 == 19,
    {
        Self(19)
    }

    /// Index of the helper for wasm's `memory.atomic.wait64`.
    pub fn memory_atomic_wait64() -> (r: Self)
        ensures
            r.0 == 20,
    {
        Self(20)
    }

    /// Index of the helper invoked when fuel runs out.
    pub fn out_of_gas() -> (r: Self)
        ensures
            r.0 == 21,
    {
        Self(21)
    }

    /// Index of the helper invoked when a new epoch is reached.
    pub fn new_epoch() -> (r: Self)
        ensures
            r.0 == 22,
    {
        Self(22)
    }

    /// Index of the helper that creates a new continuation from a
    /// funcref.
    pub fn cont_new() -> (r: Self)
        ensures
            r.0 == 23,
    {
        Self(23)
    }

    /// Index of the helper that resumes a continuation.
    pub fn resume() -> (r: Self)
        ensures
            r.0 == 24,
    {
        Self(24)
    }

    /// Index of the helper that suspends a continuation.
    pub fn suspend() -> (r: Self)
        ensures
            r.0 == 25,
    {
        Self(25)
    }

    /// Index of the helper that projects the beginning of a continuation
    /// object's payload buffer.
    pub fn cont_obj_get_payloads() -> (r: Self)
        ensures
            r.0 == 26,
    {
        Self(26)
    }

    /// Index of the helper that projects a continuation object's result
    /// value buffer. Must only be called after the continuation returned
    /// and the executed function has return values.
    pub fn cont_obj_get_results() -> (r: Self)
        ensures
            r.0 == 27,
    {
        Self(27)
    }

    /// Index of the helper that projects a pointer at the next free slot
    /// of a continuation object's argument buffer.
    pub fn cont_obj_occupy_next_args_slots() -> (r: Self)
        ensures
            r.0 == 28,
    {
        Self(28)
    }

    /// Index of the helper that sets the payloads length back to zero,
    /// deleting the buffer's contents.
    pub fn cont_obj_reset_payloads() -> (r: Self)
        ensures
            r.0 == 29,
    {
        Self(29)
    }

    /// Index of the helper that grows a continuation object's payload
    /// buffer to make room for additional elements.
    pub fn cont_obj_ensure_payloads_additional_capacity() -> (r: Self)
        ensures
            r.0 == 30,
    {
        Self(30)
    }

    /// Index of the helper that projects the continuation object behind a
    /// continuation reference.
    pub fn cont_ref_get_cont_obj() -> (r: Self)
        ensures
            r.0 == 31,
    {
        Self(31)
    }

    /// Index of the helper that creates a new continuation reference.
    pub fn new_cont_ref() -> (r: Self)
        ensures
            r.0 == 32,
    {
        Self(32)
    }

    /// Index of the helper that populates the typed-continuation payload
    /// buffer within the context and returns a pointer to it.
    pub fn alllocate_payload_buffer() -> (r: Self)
        ensures
            r.0 == 33,
    {
        Self(33)
    }

    /// Index of the helper that releases the typed-continuation payload
    /// buffer again.
    pub fn dealllocate_payload_buffer() -> (r: Self)
        ensures
            r.0 == 34,
    {
        Self(34)
    }

    /// Returns the total number of builtin functions.
    pub fn builtin_functions_total_number() -> (r: u32)
        ensures
            r == 35,
    {
        35
    }

    /// The canonical ordered list of the helpers. The position of each
    /// helper in this list is the index it resolves to: the `i`-th entry
    /// carries index `i`, and the list covers the whole registry.
    pub fn builtin_index_list() -> (r: Vec<BuiltinFunctionIndex>)
        ensures
            r@.len() == 35,
            forall|i: int| 0 <= i < r@.len() ==> (#[trigger] r@[i]).0 == i,
    {
        let r: Vec<BuiltinFunctionIndex> = vec![
            Self::memory32_grow(),
            Self::table_copy(),
            Self::table_init(),
            Self::elem_drop(),
            Self::memory_copy(),
            Self::memory_fill(),
            Self::memory_init(),
            Self::ref_func(),
            Self::data_drop(),
            Self::table_get_lazy_init_func_ref(),
            Self::table_grow_func_ref(),
            Self::table_grow_externref(),
            Self::table_fill_externref(),
            Self::table_fill_func_ref(),
            Self::drop_externref(),
            Self::activations_table_insert_with_gc(),
            Self::externref_global_get(),
            Self::externref_global_set(),
            Self::memory_atomic_notify(),
            Self::memory_atomic_wait32(),
            Self::memory_atomic_wait64(),
            Self::out_of_gas(),
            Self::new_epoch(),
            Self::cont_new(),
            Self::resume(),
            Self::suspend(),
            Self::cont_obj_get_payloads(),
            Self::cont_obj_get_results(),
            Self::cont_obj_occupy_next_args_slots(),
            Self::cont_obj_reset_payloads(),
            Self::cont_obj_ensure_payloads_additional_capacity(),
            Self::cont_ref_get_cont_obj(),
            Self::new_cont_ref(),
            Self::alllocate_payload_buffer(),
            Self::dealllocate_payload_buffer(),
        ];
        r
    }
}

} // verus!
