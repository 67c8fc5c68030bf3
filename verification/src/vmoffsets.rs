//! Offsets and sizes of the fields of the `VMContext` structure that
//! generated code accesses directly.
//!
//! The layout is computed once per module and is part of the ABI of
//! compiled artifacts: every accessor returns the exact byte offset that
//! generated code bakes in.

use vstd::prelude::*;
use crate::types::{DefinedGlobalIndex, DefinedMemoryIndex, DefinedTableIndex, FuncIndex,
    FuncRefIndex, GlobalIndex, MemoryIndex, OwnedMemoryIndex, TableIndex};

verus! {

/// Magic value stored at offset 0 of every `VMContext`: the bytes `"core"`
/// read as a little-endian `u32`.
pub const VMCONTEXT_MAGIC: u32 = 0x6572_6F63;

/// Magic value for array-call host function contexts: the bytes `"ACHF"`
/// read as a little-endian `u32`.
pub const VM_ARRAY_CALL_HOST_FUNC_MAGIC: u32 = 0x4648_4341;

/// Magic value for native-call host function contexts: the bytes `"NCHF"`
/// read as a little-endian `u32`.
pub const VM_NATIVE_CALL_HOST_FUNC_MAGIC: u32 = 0x4648_434E;

/// Mathematical form of [`align`]: the smallest multiple of `width` that is
/// at least `offset`.
pub open spec fn align_spec(offset: int, width: int) -> int {
    ((offset + width - 1) / width) * width
}

/// Rounding up to a multiple lands on or above the starting offset, below
/// the next multiple, and on an exact multiple of the width.
pub proof fn lemma_align_spec(offset: int, width: int)
    requires
        0 <= offset,
        1 <= width,
    ensures
        offset <= align_spec(offset, width),
        align_spec(offset, width) < offset + width,
        align_spec(offset, width) % width == 0,
{
    let q = (offset + width - 1) / width;
    let r = (offset + width - 1) % width;
    vstd::arithmetic::div_mod::lemma_fundamental_div_mod(offset + width - 1, width);
    assert(offset + width - 1 == q * width + r);
    vstd::arithmetic::div_mod::lemma_mod_bound(offset + width - 1, width);
    assert(align_spec(offset, width) == q * width);
    vstd::arithmetic::div_mod::lemma_mod_multiples_basic(q, width);
}

/// Align an offset used in this module to a specific byte width by rounding
/// up.
pub fn align(offset: u32, width: u32) -> (r: u32)
    requires
        1 <= width,
        offset + width - 1 <= u32::MAX,
    ensures
        r == align_spec(offset as int, width as int),
{
    proof {
        lemma_align_spec(offset as int, width as int);
    }
    (offset + (width - 1)) / width * width
}

/// Narrow a host `usize` to the `u32` domain in which all offsets live.
pub fn cast_to_u32(sz: usize) -> (r: u32)
    requires
        sz <= u32::MAX,
    ensures
        r == sz,
{
    sz as u32
}

/// Pointer widths under which every derived record offset below still fits
/// in a byte (the widest record spans five pointers).
pub open spec fn valid_ptr_width(p: u8) -> bool {
    1 <= p && p <= 51
}

/// Trait used for the `ptr` representation of the field of `VMOffsets`.
pub trait PtrSize: Sized {
    /// The pointer width denoted by this value, as specifications see it.
    spec fn spec_size(&self) -> u8;

    /// Returns the pointer size, in bytes, for the target.
    fn size(&self) -> (r: u8)
        ensures
            r == self.spec_size(),
    ;

    /// The offset of the `runtime_limits` field within `VMContext`: the
    /// magic `u32` rounded up to pointer alignment.
    fn vmcontext_runtime_limits(&self) -> (r: u8)
        requires
            valid_ptr_width(self.spec_size()),
        ensures
            r == align_spec(4, self.spec_size() as int),
    {
        proof {
            lemma_align_spec(4, self.spec_size() as int);
        }
        align(4, self.size() as u32) as u8
    }

    /// The offset of the `native_call` field of a function reference.
    fn vm_func_ref_native_call(&self) -> (r: u8)
        ensures
            r == 0,
    {
        0
    }

    /// The offset of the `array_call` field of a function reference.
    fn vm_func_ref_array_call(&self) -> (r: u8)
        ensures
            r == self.spec_size(),
    {
        self.size()
    }

    /// The offset of the `wasm_call` field of a function reference.
    fn vm_func_ref_wasm_call(&self) -> (r: u8)
        requires
            valid_ptr_width(self.spec_size()),
        ensures
            r == 2 * self.spec_size(),
    {
        2 * self.size()
    }

    /// The offset of the `type_index` field of a function reference.
    fn vm_func_ref_type_index(&self) -> (r: u8)
        requires
            valid_ptr_width(self.spec_size()),
        ensures
            r == 3 * self.spec_size(),
    {
        3 * self.size()
    }

    /// The offset of the `vmctx` field of a function reference.
    fn vm_func_ref_vmctx(&self) -> (r: u8)
        requires
            valid_ptr_width(self.spec_size()),
        ensures
            r == 4 * self.spec_size(),
    {
        4 * self.size()
    }

    /// Return the size of a function reference record: five pointers.
    fn size_of_vm_func_ref(&self) -> (r: u8)
        requires
            valid_ptr_width(self.spec_size()),
        ensures
            r == 5 * self.spec_size(),
    {
        5 * self.size()
    }

    /// Return the size of a global definition slot; this is the size of the
    /// largest value type (i.e. a V128).
    fn size_of_vmglobal_definition(&self) -> (r: u8)
        ensures
            r == 16,
    {
        16
    }

    /// This is the size of the largest value type (i.e. a V128).
    fn maximum_value_size(&self) -> (r: u8)
        ensures
            r == 16,
    {
        self.size_of_vmglobal_definition()
    }

    /// Return the offset of the `stack_limit` field of the runtime limits.
    fn vmruntime_limits_stack_limit(&self) -> (r: u8)
        ensures
            r == 0,
    {
        0
    }

    /// Return the offset of the `fuel_consumed` field of the runtime
    /// limits.
    fn vmruntime_limits_fuel_consumed(&self) -> (r: u8)
        ensures
            r == self.spec_size(),
    {
        self.size()
    }

    /// Return the offset of the `epoch_deadline` field of the runtime
    /// limits; `fuel_consumed` is an `i64`.
    fn vmruntime_limits_epoch_deadline(&self) -> (r: u8)
        requires
            valid_ptr_width(self.spec_size()),
        ensures
            r == self.spec_size() + 8,
    {
        self.vmruntime_limits_fuel_consumed() + 8
    }

    /// Return the offset of the `last_wasm_exit_fp` field of the runtime
    /// limits.
    fn vmruntime_limits_last_wasm_exit_fp(&self) -> (r: u8)
        requires
            valid_ptr_width(self.spec_size()),
        ensures
            r == self.spec_size() + 16,
    {
        self.vmruntime_limits_epoch_deadline() + 8
    }

    /// Return the offset of the `last_wasm_exit_pc` field of the runtime
    /// limits.
    fn vmruntime_limits_last_wasm_exit_pc(&self) -> (r: u8)
        requires
            valid_ptr_width(self.spec_size()),
        ensures
            r == 2 * self.spec_size() + 16,
    {
        self.vmruntime_limits_last_wasm_exit_fp() + self.size()
    }

    /// Return the offset of the `last_wasm_entry_sp` field of the runtime
    /// limits.
    fn vmruntime_limits_last_wasm_entry_sp(&self) -> (r: u8)
        requires
            valid_ptr_width(self.spec_size()),
        ensures
            r == 3 * self.spec_size() + 16,
    {
        self.vmruntime_limits_last_wasm_exit_pc() + self.size()
    }

    /// The offset of the `base` field of a memory definition.
    fn vmmemory_definition_base(&self) -> (r: u8)
        ensures
            r == 0,
    {
        0
    }

    /// The offset of the `current_length` field of a memory definition.
    fn vmmemory_definition_current_length(&self) -> (r: u8)
        ensures
            r == self.spec_size(),
    {
        self.size()
    }

    /// Return the size of a memory definition record: two pointers.
    fn size_of_vmmemory_definition(&self) -> (r: u8)
        requires
            valid_ptr_width(self.spec_size()),
        ensures
            r == 2 * self.spec_size(),
    {
        2 * self.size()
    }

    /// Return the size of a pointer to a memory definition.
    fn size_of_vmmemory_pointer(&self) -> (r: u8)
        ensures
            r == self.spec_size(),
    {
        self.size()
    }

    /// Return the offset of the function reference within a native-call
    /// host function context: its magic `u32` rounded up to pointer
    /// alignment.
    fn vmnative_call_host_func_context_func_ref(&self) -> (r: u8)
        requires
            valid_ptr_width(self.spec_size()),
        ensures
            r == align_spec(4, self.spec_size() as int),
    {
        proof {
            lemma_align_spec(4, self.spec_size() as int);
        }
        align(4, self.size() as u32) as u8
    }
}

/// Type representing the size of a pointer for the current compilation
/// host.
pub struct HostPtr;

impl PtrSize for HostPtr {
    open spec fn spec_size(&self) -> u8 {
        vstd::layout::size_of::<usize>() as u8
    }

    fn size(&self) -> (r: u8) {
        proof {
            broadcast use vstd::layout::layout_of_primitives;

        }
        core::mem::size_of::<usize>() as u8
    }
}

impl PtrSize for u8 {
    open spec fn spec_size(&self) -> u8 {
        *self
    }

    fn size(&self) -> (r: u8) {
        *self
    }
}

/// Used to construct a `VMOffsets`: the pointer width of the target and
/// the entity counts of one module.
#[derive(Clone, Copy, Debug)]
pub struct VMOffsetsFields<P> {
    /// The size in bytes of a pointer on the target.
    pub ptr: P,
    /// The number of imported functions in the module.
    pub num_imported_functions: u32,
    /// The number of imported tables in the module.
    pub num_imported_tables: u32,
    /// The number of imported memories in the module.
    pub num_imported_memories: u32,
    /// The number of imported globals in the module.
    pub num_imported_globals: u32,
    /// The number of defined tables in the module.
    pub num_defined_tables: u32,
    /// The number of defined memories in the module.
    pub num_defined_memories: u32,
    /// The number of memories owned by the module instance.
    pub num_owned_memories: u32,
    /// The number of defined globals in the module.
    pub num_defined_globals: u32,
    /// The number of escaped functions in the module, the size of the
    /// `func_refs` array.
    pub num_escaped_funcs: u32,
}

impl<P: PtrSize> VMOffsetsFields<P> {
    /// The pointer width, as an unbounded integer.
    pub open spec fn psize(self) -> int {
        self.ptr.spec_size() as int
    }

    /// Offset of the magic sentinel: always the very start.
    pub open spec fn off_magic(self) -> int {
        0
    }

    /// Offset of the runtime-limits pointer: the magic `u32` rounded up to
    /// pointer alignment.
    pub open spec fn off_runtime_limits(self) -> int {
        align_spec(4, self.psize())
    }

    /// Offset of the callee pointer.
    pub open spec fn off_callee(self) -> int {
        self.off_runtime_limits() + self.psize()
    }

    /// Offset of the epoch-counter pointer.
    pub open spec fn off_epoch_ptr(self) -> int {
        self.off_callee() + self.psize()
    }

    /// Offset of the externref activations table pointer.
    pub open spec fn off_externref_activations_table(self) -> int {
        self.off_epoch_ptr() + self.psize()
    }

    /// Offset of the store field: a fat pointer of two pointer widths.
    pub open spec fn off_store(self) -> int {
        self.off_externref_activations_table() + self.psize()
    }

    /// Offset of the builtin-functions array pointer.
    pub open spec fn off_builtin_functions(self) -> int {
        self.off_store() + 2 * self.psize()
    }

    /// Offset of the signature-ids array pointer.
    pub open spec fn off_signature_ids(self) -> int {
        self.off_builtin_functions() + self.psize()
    }

    /// Offset of the imported-functions array; each record holds four
    /// pointers.
    pub open spec fn off_imported_functions(self) -> int {
        self.off_signature_ids() + self.psize()
    }

    /// Offset of the imported-tables array; each record holds two
    /// pointers.
    pub open spec fn off_imported_tables(self) -> int {
        self.off_imported_functions() + self.num_imported_functions * (4 * self.psize())
    }

    /// Offset of the imported-memories array; each record holds three
    /// pointers.
    pub open spec fn off_imported_memories(self) -> int {
        self.off_imported_tables() + self.num_imported_tables * (2 * self.psize())
    }

    /// Offset of the imported-globals array; each record holds one
    /// pointer.
    pub open spec fn off_imported_globals(self) -> int {
        self.off_imported_memories() + self.num_imported_memories * (3 * self.psize())
    }

    /// Offset of the defined-tables array; each record holds a base
    /// pointer and a `u32` count, rounded to two pointers.
    pub open spec fn off_defined_tables(self) -> int {
        self.off_imported_globals() + self.num_imported_globals * self.psize()
    }

    /// Offset of the defined-memories array of memory-definition pointers.
    pub open spec fn off_defined_memories(self) -> int {
        self.off_defined_tables() + self.num_defined_tables * (2 * self.psize())
    }

    /// Offset of the owned-memories array; each record holds two pointers.
    pub open spec fn off_owned_memories(self) -> int {
        self.off_defined_memories() + self.num_defined_memories * self.psize()
    }

    /// Offset of the defined-globals array: the cursor after the owned
    /// memories, rounded up to 16 bytes; each slot is 16 bytes wide.
    pub open spec fn off_defined_globals(self) -> int {
        align_spec(self.off_owned_memories() + self.num_owned_memories * (2 * self.psize()), 16)
    }

    /// Offset of the `func_refs` array; each record holds five pointers.
    pub open spec fn off_defined_func_refs(self) -> int {
        self.off_defined_globals() + self.num_defined_globals * 16
    }

    /// Offset of the typed-continuations store pointer.
    pub open spec fn off_typed_continuations_store(self) -> int {
        self.off_defined_func_refs() + self.num_escaped_funcs * (5 * self.psize())
    }

    /// Offset of the typed-continuations payload buffer pointer.
    pub open spec fn off_typed_continuations_payloads_ptr(self) -> int {
        self.off_typed_continuations_store() + self.psize()
    }

    /// The total size of the `VMContext`: the end of the last field,
    /// rounded up to 16 bytes.
    pub open spec fn total_size(self) -> int {
        align_spec(self.off_typed_continuations_payloads_ptr() + self.psize(), 16)
    }

    /// Every offset in the chain sits at or after the end of the previous
    /// field, and the total is a nonnegative multiple of 16.
    pub proof fn lemma_layout_monotone(self)
        requires
            valid_ptr_width(self.ptr.spec_size()),
        ensures
            4 <= self.off_runtime_limits(),
            self.off_runtime_limits() < 4 + self.psize(),
            self.off_imported_functions() <= self.off_imported_tables(),
            self.off_imported_tables() <= self.off_imported_memories(),
            self.off_imported_memories() <= self.off_imported_globals(),
            self.off_imported_globals() <= self.off_defined_tables(),
            self.off_defined_tables() <= self.off_defined_memories(),
            self.off_defined_memories() <= self.off_owned_memories(),
            self.off_owned_memories() + self.num_owned_memories * (2 * self.psize())
                <= self.off_defined_globals(),
            self.off_owned_memories() <= self.off_defined_globals(),
            self.off_defined_globals() <= self.off_defined_func_refs(),
            self.off_defined_func_refs() <= self.off_typed_continuations_store(),
            self.off_typed_continuations_payloads_ptr() + self.psize() <= self.total_size(),
            self.total_size() % 16 == 0,
            self.off_defined_globals() % 16 == 0,
    {
        let p = self.psize();
        lemma_align_spec(4, p);
        vstd::arithmetic::mul::lemma_mul_nonnegative(
            self.num_imported_functions as int,
            4 * p,
        );
        vstd::arithmetic::mul::lemma_mul_nonnegative(
            self.num_imported_tables as int,
            2 * p,
        );
        vstd::arithmetic::mul::lemma_mul_nonnegative(
            self.num_imported_memories as int,
            3 * p,
        );
        vstd::arithmetic::mul::lemma_mul_nonnegative(self.num_imported_globals as int, p);
        vstd::arithmetic::mul::lemma_mul_nonnegative(
            self.num_defined_tables as int,
            2 * p,
        );
        vstd::arithmetic::mul::lemma_mul_nonnegative(self.num_defined_memories as int, p);
        vstd::arithmetic::mul::lemma_mul_nonnegative(
            self.num_owned_memories as int,
            2 * p,
        );
        vstd::arithmetic::mul::lemma_mul_nonnegative(self.num_defined_globals as int, 16);
        vstd::arithmetic::mul::lemma_mul_nonnegative(self.num_escaped_funcs as int, 5 * p);
        lemma_align_spec(
            self.off_owned_memories() + self.num_owned_memories * (2 * p),
            16,
        );
        lemma_align_spec(self.off_typed_continuations_payloads_ptr() + p, 16);
    }
}

/// This structure holds the precomputed offsets to the fields within a
/// `VMContext` and other related structs that generated code accesses
/// directly.
#[derive(Clone, Copy, Debug)]
pub struct VMOffsets<P> {
    /// The size in bytes of a pointer on the target.
    pub ptr: P,
    /// The number of imported functions in the module.
    pub num_imported_functions: u32,
    /// The number of imported tables in the module.
    pub num_imported_tables: u32,
    /// The number of imported memories in the module.
    pub num_imported_memories: u32,
    /// The number of imported globals in the module.
    pub num_imported_globals: u32,
    /// The number of defined tables in the module.
    pub num_defined_tables: u32,
    /// The number of defined memories in the module.
    pub num_defined_memories: u32,
    /// The number of memories owned by the module instance.
    pub num_owned_memories: u32,
    /// The number of defined globals in the module.
    pub num_defined_globals: u32,
    /// The number of escaped functions in the module, the size of the
    /// `func_refs` array.
    pub num_escaped_funcs: u32,
    /// Precomputed offset of the magic sentinel.
    pub magic: u32,
    /// Precomputed offset of the runtime-limits pointer.
    pub runtime_limits: u32,
    /// Precomputed offset of the callee pointer.
    pub callee: u32,
    /// Precomputed offset of the epoch-counter pointer.
    pub epoch_ptr: u32,
    /// Precomputed offset of the externref activations table pointer.
    pub externref_activations_table: u32,
    /// Precomputed offset of the store fat pointer.
    pub store: u32,
    /// Precomputed offset of the builtin-functions array pointer.
    pub builtin_functions: u32,
    /// Precomputed offset of the signature-ids array pointer.
    pub signature_ids: u32,
    /// Precomputed offset of the imported-functions array.
    pub imported_functions: u32,
    /// Precomputed offset of the imported-tables array.
    pub imported_tables: u32,
    /// Precomputed offset of the imported-memories array.
    pub imported_memories: u32,
    /// Precomputed offset of the imported-globals array.
    pub imported_globals: u32,
    /// Precomputed offset of the defined-tables array.
    pub defined_tables: u32,
    /// Precomputed offset of the defined-memories array.
    pub defined_memories: u32,
    /// Precomputed offset of the owned-memories array.
    pub owned_memories: u32,
    /// Precomputed offset of the defined-globals array.
    pub defined_globals: u32,
    /// Precomputed offset of the `func_refs` array.
    pub defined_func_refs: u32,
    /// Precomputed total size of the `VMContext`.
    pub size: u32,
    /// Precomputed offset of the typed-continuations store pointer, used
    /// to park the continuation being suspended.
    pub typed_continuations_store: u32,
    /// Precomputed offset of the typed-continuations payload buffer
    /// pointer.
    pub typed_continuations_payloads_ptr: u32,
}

impl<P: PtrSize> VMOffsets<P> {
    /// The fields this layout was computed from.
    pub open spec fn to_fields(self) -> VMOffsetsFields<P> {
        VMOffsetsFields {
            ptr: self.ptr,
            num_imported_functions: self.num_imported_functions,
            num_imported_tables: self.num_imported_tables,
            num_imported_memories: self.num_imported_memories,
            num_imported_globals: self.num_imported_globals,
            num_defined_tables: self.num_defined_tables,
            num_defined_memories: self.num_defined_memories,
            num_owned_memories: self.num_owned_memories,
            num_defined_globals: self.num_defined_globals,
            num_escaped_funcs: self.num_escaped_funcs,
        }
    }

    /// The pointer width, as an unbounded integer.
    pub open spec fn psize(self) -> int {
        self.ptr.spec_size() as int
    }

    /// Each precomputed offset equals the one the layout algorithm
    /// assigns for this pointer width and these counts, and the whole
    /// layout fits in the `u32` offset domain. The constructors establish
    /// this.
    pub open spec fn wf(self) -> bool {
        let f = self.to_fields();
        &&& valid_ptr_width(self.ptr.spec_size())
        &&& f.total_size() <= u32::MAX
        &&& self.magic == f.off_magic()
        &&& self.runtime_limits == f.off_runtime_limits()
        &&& self.callee == f.off_callee()
        &&& self.epoch_ptr == f.off_epoch_ptr()
        &&& self.externref_activations_table == f.off_externref_activations_table()
        &&& self.store == f.off_store()
        &&& self.builtin_functions == f.off_builtin_functions()
        &&& self.signature_ids == f.off_signature_ids()
        &&& self.imported_functions == f.off_imported_functions()
        &&& self.imported_tables == f.off_imported_tables()
        &&& self.imported_memories == f.off_imported_memories()
        &&& self.imported_globals == f.off_imported_globals()
        &&& self.defined_tables == f.off_defined_tables()
        &&& self.defined_memories == f.off_defined_memories()
        &&& self.owned_memories == f.off_owned_memories()
        &&& self.defined_globals == f.off_defined_globals()
        &&& self.defined_func_refs == f.off_defined_func_refs()
        &&& self.typed_continuations_store == f.off_typed_continuations_store()
        &&& self.typed_continuations_payloads_ptr == f.off_typed_continuations_payloads_ptr()
        &&& self.size == f.total_size()
    }

    /// Run the layout algorithm: place the fixed header fields, then each
    /// entity array, aligning the globals to 16 bytes and rounding the
    /// total up to 16 bytes.
    pub fn from(fields: VMOffsetsFields<P>) -> (r: VMOffsets<P>)
        requires
            valid_ptr_width(fields.ptr.spec_size()),
            fields.total_size() <= u32::MAX,
        ensures
            r.to_fields() == fields,
            r.wf(),
    {
        proof {
            fields.lemma_layout_monotone();
            vstd::arithmetic::div_mod::lemma_fundamental_div_mod(fields.total_size(), 16);
            assert(fields.total_size() <= 0xFFFF_FFF0);
        }
        let p: u32 = fields.ptr.size() as u32;
        let magic: u32 = 0;
        let runtime_limits = align(4, p);
        let callee = runtime_limits + p;
        let epoch_ptr = callee + p;
        let externref_activations_table = epoch_ptr + p;
        let store = externref_activations_table + p;
        let builtin_functions = store + 2 * p;
        let signature_ids = builtin_functions + p;
        let imported_functions = signature_ids + p;
        let imported_tables = imported_functions + fields.num_imported_functions * (4 * p);
        let imported_memories = imported_tables + fields.num_imported_tables * (2 * p);
        let imported_globals = imported_memories + fields.num_imported_memories * (3 * p);
        let defined_tables = imported_globals + fields.num_imported_globals * p;
        let defined_memories = defined_tables + fields.num_defined_tables * (2 * p);
        let owned_memories = defined_memories + fields.num_defined_memories * p;
        let defined_globals = align(owned_memories + fields.num_owned_memories * (2 * p), 16);
        let defined_func_refs = defined_globals + fields.num_defined_globals * 16;
        let typed_continuations_store = defined_func_refs + fields.num_escaped_funcs * (5 * p);
        let typed_continuations_payloads_ptr = typed_continuations_store + p;
        let size = align(typed_continuations_payloads_ptr + p, 16);
        VMOffsets {
            ptr: fields.ptr,
            num_imported_functions: fields.num_imported_functions,
            num_imported_tables: fields.num_imported_tables,
            num_imported_memories: fields.num_imported_memories,
            num_imported_globals: fields.num_imported_globals,
            num_defined_tables: fields.num_defined_tables,
            num_defined_memories: fields.num_defined_memories,
            num_owned_memories: fields.num_owned_memories,
            num_defined_globals: fields.num_defined_globals,
            num_escaped_funcs: fields.num_escaped_funcs,
            magic,
            runtime_limits,
            callee,
            epoch_ptr,
            externref_activations_table,
            store,
            builtin_functions,
            signature_ids,
            imported_functions,
            imported_tables,
            imported_memories,
            imported_globals,
            defined_tables,
            defined_memories,
            owned_memories,
            defined_globals,
            defined_func_refs,
            size,
            typed_continuations_store,
            typed_continuations_payloads_ptr,
        }
    }

    /// Returns the size, in bytes, of the target's pointers.
    #[inline]
    pub fn pointer_size(&self) -> (r: u8)
        ensures
            r == self.ptr.spec_size(),
    {
        self.ptr.size()
    }
}

/// Offsets for function import records.
impl<P: PtrSize> VMOffsets<P> {
    /// The offset of the `wasm_call` field.
    #[inline]
    pub fn vmfunction_import_wasm_call(&self) -> (r: u8)
        ensures
            r == 0,
    {
        0
    }

    /// The offset of the `native_call` field.
    #[inline]
    pub fn vmfunction_import_native_call(&self) -> (r: u8)
        ensures
            r == self.ptr.spec_size(),
    {
        self.pointer_size()
    }

    /// The offset of the `array_call` field.
    #[inline]
    pub fn vmfunction_import_array_call(&self) -> (r: u8)
        requires
            valid_ptr_width(self.ptr.spec_size()),
        ensures
            r == 2 * self.ptr.spec_size(),
    {
        2 * self.pointer_size()
    }

    /// The offset of the `vmctx` field.
    #[inline]
    pub fn vmfunction_import_vmctx(&self) -> (r: u8)
        requires
            valid_ptr_width(self.ptr.spec_size()),
        ensures
            r == 3 * self.ptr.spec_size(),
    {
        3 * self.pointer_size()
    }

    /// Return the size of a function import record: four pointers.
    #[inline]
    pub fn size_of_vmfunction_import(&self) -> (r: u8)
        requires
            valid_ptr_width(self.ptr.spec_size()),
        ensures
            r == 4 * self.ptr.spec_size(),
    {
        4 * self.pointer_size()
    }
}

/// Offsets for a pointer to a function body.
impl<P: PtrSize> VMOffsets<P> {
    /// Return the size of a pointer to a function body.
    pub fn size_of_vmfunction_body_ptr(&self) -> (r: u8)
        ensures
            r == self.ptr.spec_size(),
    {
        self.pointer_size()
    }
}

/// Offsets for table import records.
impl<P: PtrSize> VMOffsets<P> {
    /// The offset of the `from` field.
    #[inline]
    pub fn vmtable_import_from(&self) -> (r: u8)
        ensures
            r == 0,
    {
        0
    }

    /// The offset of the `vmctx` field.
    #[inline]
    pub fn vmtable_import_vmctx(&self) -> (r: u8)
        ensures
            r == self.ptr.spec_size(),
    {
        self.pointer_size()
    }

    /// Return the size of a table import record: two pointers.
    #[inline]
    pub fn size_of_vmtable_import(&self) -> (r: u8)
        requires
            valid_ptr_width(self.ptr.spec_size()),
        ensures
            r == 2 * self.ptr.spec_size(),
    {
        2 * self.pointer_size()
    }
}

/// Offsets for table definition records.
impl<P: PtrSize> VMOffsets<P> {
    /// The offset of the `base` field.
    #[inline]
    pub fn vmtable_definition_base(&self) -> (r: u8)
        ensures
            r == 0,
    {
        0
    }

    /// The offset of the `current_elements` field.
    pub fn vmtable_definition_current_elements(&self) -> (r: u8)
        ensures
            r == self.ptr.spec_size(),
    {
        self.pointer_size()
    }

    /// The size of the `current_elements` field.
    #[inline]
    pub fn size_of_vmtable_definition_current_elements(&self) -> (r: u8)
        ensures
            r == 4,
    {
        4
    }

    /// Return the size of a table definition record, rounded to two
    /// pointers.
    #[inline]
    pub fn size_of_vmtable_definition(&self) -> (r: u8)
        requires
            valid_ptr_width(self.ptr.spec_size()),
        ensures
            r == 2 * self.ptr.spec_size(),
    {
        2 * self.pointer_size()
    }
}

/// Offsets for memory import records.
impl<P: PtrSize> VMOffsets<P> {
    /// The offset of the `from` field.
    #[inline]
    pub fn vmmemory_import_from(&self) -> (r: u8)
        ensures
            r == 0,
    {
        0
    }

    /// The offset of the `vmctx` field.
    #[inline]
    pub fn vmmemory_import_vmctx(&self) -> (r: u8)
        ensures
            r == self.ptr.spec_size(),
    {
        self.pointer_size()
    }

    /// Return the size of a memory import record: three pointers.
    #[inline]
    pub fn size_of_vmmemory_import(&self) -> (r: u8)
        requires
            valid_ptr_width(self.ptr.spec_size()),
        ensures
            r == 3 * self.ptr.spec_size(),
    {
        3 * self.pointer_size()
    }
}

/// Offsets for global import records.
impl<P: PtrSize> VMOffsets<P> {
    /// The offset of the `from` field.
    #[inline]
    pub fn vmglobal_import_from(&self) -> (r: u8)
        ensures
            r == 0,
    {
        0
    }

    /// Return the size of a global import record: one pointer.
    #[inline]
    pub fn size_of_vmglobal_import(&self) -> (r: u8)
        ensures
            r == self.ptr.spec_size(),
    {
        self.pointer_size()
    }
}

/// Offsets for shared signature ids.
impl<P: PtrSize> VMOffsets<P> {
    /// Return the size of a shared signature id.
    #[inline]
    pub fn size_of_vmshared_signature_index(&self) -> (r: u8)
        ensures
            r == 4,
    {
        4
    }
}

/// Offsets into the `VMContext` itself.
impl<P: PtrSize> VMOffsets<P> {
    /// Return the offset to the magic sentinel in this `VMContext`.
    #[inline]
    pub fn vmctx_magic(&self) -> (r: u32)
        ensures
            r == self.magic,
    {
        self.magic
    }

    /// Return the offset to the runtime-limits pointer.
    #[inline]
    pub fn vmctx_runtime_limits(&self) -> (r: u32)
        ensures
            r == self.runtime_limits,
    {
        self.runtime_limits
    }

    /// Return the offset to the `callee` member in this `VMContext`.
    pub fn vmctx_callee(&self) -> (r: u32)
        ensures
            r == self.callee,
    {
        self.callee
    }

    /// Return the offset to the epoch-counter pointer.
    #[inline]
    pub fn vmctx_epoch_ptr(&self) -> (r: u32)
        ensures
            r == self.epoch_ptr,
    {
        self.epoch_ptr
    }

    /// The offset of the externref activations table pointer.
    #[inline]
    pub fn vmctx_externref_activations_table(&self) -> (r: u32)
        ensures
            r == self.externref_activations_table,
    {
        self.externref_activations_table
    }

    /// The offset of the store member.
    #[inline]
    pub fn vmctx_store(&self) -> (r: u32)
        ensures
            r == self.store,
    {
        self.store
    }

    /// The offset of the signature-ids array pointer.
    #[inline]
    pub fn vmctx_signature_ids_array(&self) -> (r: u32)
        ensures
            r == self.signature_ids,
    {
        self.signature_ids
    }

    /// The offset of the imported-functions array.
    #[inline]
    pub fn vmctx_imported_functions_begin(&self) -> (r: u32)
        ensures
            r == self.imported_functions,
    {
        self.imported_functions
    }

    /// The offset of the imported-tables array.
    #[inline]
    pub fn vmctx_imported_tables_begin(&self) -> (r: u32)
        ensures
            r == self.imported_tables,
    {
        self.imported_tables
    }

    /// The offset of the imported-memories array.
    #[inline]
    pub fn vmctx_imported_memories_begin(&self) -> (r: u32)
        ensures
            r == self.imported_memories,
    {
        self.imported_memories
    }

    /// The offset of the imported-globals array.
    #[inline]
    pub fn vmctx_imported_globals_begin(&self) -> (r: u32)
        ensures
            r == self.imported_globals,
    {
        self.imported_globals
    }

    /// The offset of the defined-tables array.
    #[inline]
    pub fn vmctx_tables_begin(&self) -> (r: u32)
        ensures
            r == self.defined_tables,
    {
        self.defined_tables
    }

    /// The offset of the defined-memories array.
    #[inline]
    pub fn vmctx_memories_begin(&self) -> (r: u32)
        ensures
            r == self.defined_memories,
    {
        self.defined_memories
    }

    /// The offset of the owned-memories array.
    #[inline]
    pub fn vmctx_owned_memories_begin(&self) -> (r: u32)
        ensures
            r == self.owned_memories,
    {
        self.owned_memories
    }

    /// The offset of the defined-globals array.
    #[inline]
    pub fn vmctx_globals_begin(&self) -> (r: u32)
        ensures
            r == self.defined_globals,
    {
        self.defined_globals
    }

    /// The offset of the `func_refs` array.
    #[inline]
    pub fn vmctx_func_refs_begin(&self) -> (r: u32)
        ensures
            r == self.defined_func_refs,
    {
        self.defined_func_refs
    }

    /// The offset of the builtin-functions array pointer.
    #[inline]
    pub fn vmctx_builtin_functions(&self) -> (r: u32)
        ensures
            r == self.builtin_functions,
    {
        self.builtin_functions
    }

    /// The offset of the typed-continuations store.
    #[inline]
    pub fn vmctx_typed_continuations_store(&self) -> (r: u32)
        ensures
            r == self.typed_continuations_store,
    {
        self.typed_continuations_store
    }

    /// The offset of the typed-continuations payload buffer pointer.
    #[inline]
    pub fn vmctx_typed_continuations_payloads_ptr(&self) -> (r: u32)
        ensures
            r == self.typed_continuations_payloads_ptr,
    {
        self.typed_continuations_payloads_ptr
    }

    /// Return the size of the whole `VMContext` allocation.
    #[inline]
    pub fn size_of_vmctx(&self) -> (r: u32)
        ensures
            r == self.size,
    {
        self.size
    }

    /// Return the offset to the function import record at `index`.
    #[inline]
    pub fn vmctx_vmfunction_import(&self, index: FuncIndex) -> (r: u32)
        requires
            self.wf(),
            index.0 < self.num_imported_functions,
        ensures
            r == self.imported_functions + index.0 * (4 * self.psize()),
    {
        proof {
            self.to_fields().lemma_layout_monotone();
            self.lemma_indexed_slot_fits(
                index.0 as int,
                self.num_imported_functions as int,
                4 * self.psize(),
                self.imported_functions as int,
                self.imported_tables as int,
            );
        }
        self.vmctx_imported_functions_begin() + index.as_u32() * (self.size_of_vmfunction_import()
            as u32)
    }

    /// Return the offset to the table import record at `index`.
    #[inline]
    pub fn vmctx_vmtable_import(&self, index: TableIndex) -> (r: u32)
        requires
            self.wf(),
            index.0 < self.num_imported_tables,
        ensures
            r == self.imported_tables + index.0 * (2 * self.psize()),
    {
        proof {
            self.to_fields().lemma_layout_monotone();
            self.lemma_indexed_slot_fits(
                index.0 as int,
                self.num_imported_tables as int,
                2 * self.psize(),
                self.imported_tables as int,
                self.imported_memories as int,
            );
        }
        self.vmctx_imported_tables_begin() + index.as_u32() * (self.size_of_vmtable_import()
            as u32)
    }

    /// Return the offset to the memory import record at `index`.
    #[inline]
    pub fn vmctx_vmmemory_import(&self, index: MemoryIndex) -> (r: u32)
        requires
            self.wf(),
            index.0 < self.num_imported_memories,
        ensures
            r == self.imported_memories + index.0 * (3 * self.psize()),
    {
        proof {
            self.to_fields().lemma_layout_monotone();
            self.lemma_indexed_slot_fits(
                index.0 as int,
                self.num_imported_memories as int,
                3 * self.psize(),
                self.imported_memories as int,
                self.imported_globals as int,
            );
        }
        self.vmctx_imported_memories_begin() + index.as_u32() * (self.size_of_vmmemory_import()
            as u32)
    }

    /// Return the offset to the global import record at `index`.
    #[inline]
    pub fn vmctx_vmglobal_import(&self, index: GlobalIndex) -> (r: u32)
        requires
            self.wf(),
            index.0 < self.num_imported_globals,
        ensures
            r == self.imported_globals + index.0 * self.psize(),
    {
        proof {
            self.to_fields().lemma_layout_monotone();
            self.lemma_indexed_slot_fits(
                index.0 as int,
                self.num_imported_globals as int,
                self.psize(),
                self.imported_globals as int,
                self.defined_tables as int,
            );
        }
        self.vmctx_imported_globals_begin() + index.as_u32() * (self.size_of_vmglobal_import()
            as u32)
    }

    /// Return the offset to the table definition record at `index`.
    #[inline]
    pub fn vmctx_vmtable_definition(&self, index: DefinedTableIndex) -> (r: u32)
        requires
            self.wf(),
            index.0 < self.num_defined_tables,
        ensures
            r == self.defined_tables + index.0 * (2 * self.psize()),
    {
        proof {
            self.to_fields().lemma_layout_monotone();
            self.lemma_indexed_slot_fits(
                index.0 as int,
                self.num_defined_tables as int,
                2 * self.psize(),
                self.defined_tables as int,
                self.defined_memories as int,
            );
        }
        self.vmctx_tables_begin() + index.as_u32() * (self.size_of_vmtable_definition() as u32)
    }

    /// Return the offset to the memory-definition pointer at `index`.
    #[inline]
    pub fn vmctx_vmmemory_pointer(&self, index: DefinedMemoryIndex) -> (r: u32)
        requires
            self.wf(),
            index.0 < self.num_defined_memories,
        ensures
            r == self.defined_memories + index.0 * self.psize(),
    {
        proof {
            self.to_fields().lemma_layout_monotone();
            self.lemma_indexed_slot_fits(
                index.0 as int,
                self.num_defined_memories as int,
                self.psize(),
                self.defined_memories as int,
                self.owned_memories as int,
            );
        }
        self.vmctx_memories_begin() + index.as_u32() * (self.ptr.size_of_vmmemory_pointer()
            as u32)
    }

    /// Return the offset to the owned memory definition record at
    /// `index`.
    #[inline]
    pub fn vmctx_vmmemory_definition(&self, index: OwnedMemoryIndex) -> (r: u32)
        requires
            self.wf(),
            index.0 < self.num_owned_memories,
        ensures
            r == self.owned_memories + index.0 * (2 * self.psize()),
    {
        proof {
            self.to_fields().lemma_layout_monotone();
            self.lemma_indexed_slot_fits(
                index.0 as int,
                self.num_owned_memories as int,
                2 * self.psize(),
                self.owned_memories as int,
                self.owned_memories as int + self.num_owned_memories as int * (2 * self.psize()),
            );
        }
        self.vmctx_owned_memories_begin() + index.as_u32() * (self.ptr.size_of_vmmemory_definition()
            as u32)
    }

    /// Return the offset to the global definition slot at `index`.
    #[inline]
    pub fn vmctx_vmglobal_definition(&self, index: DefinedGlobalIndex) -> (r: u32)
        requires
            self.wf(),
            index.0 < self.num_defined_globals,
        ensures
            r == self.defined_globals + index.0 * 16,
    {
        proof {
            self.to_fields().lemma_layout_monotone();
            self.lemma_indexed_slot_fits(
                index.0 as int,
                self.num_defined_globals as int,
                16,
                self.defined_globals as int,
                self.defined_func_refs as int,
            );
        }
        self.vmctx_globals_begin() + index.as_u32() * (self.ptr.size_of_vmglobal_definition()
            as u32)
    }

    /// Return the offset to the function reference record for the given
    /// escaped function, whether imported or defined.
    #[inline]
    pub fn vmctx_func_ref(&self, index: FuncRefIndex) -> (r: u32)
        requires
            self.wf(),
            index.0 != u32::MAX,
            index.0 < self.num_escaped_funcs,
        ensures
            r == self.defined_func_refs + index.0 * (5 * self.psize()),
    {
        proof {
            self.to_fields().lemma_layout_monotone();
            self.lemma_indexed_slot_fits(
                index.0 as int,
                self.num_escaped_funcs as int,
                5 * self.psize(),
                self.defined_func_refs as int,
                self.typed_continuations_store as int,
            );
        }
        self.vmctx_func_refs_begin() + index.as_u32() * (self.ptr.size_of_vm_func_ref() as u32)
    }

    /// An indexed slot starts within the array's span: the span's end is
    /// in the offset domain, so the slot's offset is as well.
    proof fn lemma_indexed_slot_fits(self, idx: int, n: int, sz: int, begin: int, end: int)
        requires
            self.wf(),
            0 <= idx < n,
            0 <= sz,
            0 <= begin,
            begin + n * sz <= end,
            end <= self.size,
        ensures
            0 <= idx * sz,
            begin + idx * sz + sz <= end,
    {
        vstd::arithmetic::mul::lemma_mul_nonnegative(idx, sz);
        vstd::arithmetic::mul::lemma_mul_inequality(idx + 1, n, sz);
        vstd::arithmetic::mul::lemma_mul_is_distributive_add_other_way(sz, idx, 1);
    }

    /// Return the offset to the `wasm_call` field of the function import
    /// record at `index`.
    #[inline]
    pub fn vmctx_vmfunction_import_wasm_call(&self, index: FuncIndex) -> (r: u32)
        requires
            self.wf(),
            index.0 < self.num_imported_functions,
        ensures
            r == self.imported_functions + index.0 * (4 * self.psize()),
    {
        self.vmctx_vmfunction_import(index) + (self.vmfunction_import_wasm_call() as u32)
    }

    /// Return the offset to the `native_call` field of the function
    /// import record at `index`.
    #[inline]
    pub fn vmctx_vmfunction_import_native_call(&self, index: FuncIndex) -> (r: u32)
        requires
            self.wf(),
            index.0 < self.num_imported_functions,
        ensures
            r == self.imported_functions + index.0 * (4 * self.psize()) + self.psize(),
    {
        proof {
            self.to_fields().lemma_layout_monotone();
            self.lemma_indexed_slot_fits(
                index.0 as int,
                self.num_imported_functions as int,
                4 * self.psize(),
                self.imported_functions as int,
                self.imported_tables as int,
            );
        }
        self.vmctx_vmfunction_import(index) + (self.vmfunction_import_native_call() as u32)
    }

    /// Return the offset to the `array_call` field of the function import
    /// record at `index`.
    #[inline]
    pub fn vmctx_vmfunction_import_array_call(&self, index: FuncIndex) -> (r: u32)
        requires
            self.wf(),
            index.0 < self.num_imported_functions,
        ensures
            r == self.imported_functions + index.0 * (4 * self.psize()) + 2 * self.psize(),
    {
        proof {
            self.to_fields().lemma_layout_monotone();
            self.lemma_indexed_slot_fits(
                index.0 as int,
                self.num_imported_functions as int,
                4 * self.psize(),
                self.imported_functions as int,
                self.imported_tables as int,
            );
        }
        self.vmctx_vmfunction_import(index) + (self.vmfunction_import_array_call() as u32)
    }

    /// Return the offset to the `vmctx` field of the function import
    /// record at `index`.
    #[inline]
    pub fn vmctx_vmfunction_import_vmctx(&self, index: FuncIndex) -> (r: u32)
        requires
            self.wf(),
            index.0 < self.num_imported_functions,
        ensures
            r == self.imported_functions + index.0 * (4 * self.psize()) + 3 * self.psize(),
    {
        proof {
            self.to_fields().lemma_layout_monotone();
            self.lemma_indexed_slot_fits(
                index.0 as int,
                self.num_imported_functions as int,
                4 * self.psize(),
                self.imported_functions as int,
                self.imported_tables as int,
            );
        }
        self.vmctx_vmfunction_import(index) + (self.vmfunction_import_vmctx() as u32)
    }

    /// Return the offset to the `from` field of the table import record
    /// at `index`.
    #[inline]
    pub fn vmctx_vmtable_import_from(&self, index: TableIndex) -> (r: u32)
        requires
            self.wf(),
            index.0 < self.num_imported_tables,
        ensures
            r == self.imported_tables + index.0 * (2 * self.psize()),
    {
        self.vmctx_vmtable_import(index) + (self.vmtable_import_from() as u32)
    }

    /// Return the offset to the `base` field of the table definition
    /// record at `index`.
    #[inline]
    pub fn vmctx_vmtable_definition_base(&self, index: DefinedTableIndex) -> (r: u32)
        requires
            self.wf(),
            index.0 < self.num_defined_tables,
        ensures
            r == self.defined_tables + index.0 * (2 * self.psize()),
    {
        self.vmctx_vmtable_definition(index) + (self.vmtable_definition_base() as u32)
    }

    /// Return the offset to the `current_elements` field of the table
    /// definition record at `index`.
    #[inline]
    pub fn vmctx_vmtable_definition_current_elements(&self, index: DefinedTableIndex) -> (r: u32)
        requires
            self.wf(),
            index.0 < self.num_defined_tables,
        ensures
            r == self.defined_tables + index.0 * (2 * self.psize()) + self.psize(),
    {
        proof {
            self.to_fields().lemma_layout_monotone();
            self.lemma_indexed_slot_fits(
                index.0 as int,
                self.num_defined_tables as int,
                2 * self.psize(),
                self.defined_tables as int,
                self.defined_memories as int,
            );
        }
        self.vmctx_vmtable_definition(index) + (self.vmtable_definition_current_elements() as u32)
    }

    /// Return the offset to the `from` field of the memory import record
    /// at `index`.
    #[inline]
    pub fn vmctx_vmmemory_import_from(&self, index: MemoryIndex) -> (r: u32)
        requires
            self.wf(),
            index.0 < self.num_imported_memories,
        ensures
            r == self.imported_memories + index.0 * (3 * self.psize()),
    {
        self.vmctx_vmmemory_import(index) + (self.vmmemory_import_from() as u32)
    }

    /// Return the offset to the `vmctx` field of the memory import record
    /// at `index`.
    #[inline]
    pub fn vmctx_vmmemory_import_vmctx(&self, index: MemoryIndex) -> (r: u32)
        requires
            self.wf(),
            index.0 < self.num_imported_memories,
        ensures
            r == self.imported_memories + index.0 * (3 * self.psize()) + self.psize(),
    {
        proof {
            self.to_fields().lemma_layout_monotone();
            self.lemma_indexed_slot_fits(
                index.0 as int,
                self.num_imported_memories as int,
                3 * self.psize(),
                self.imported_memories as int,
                self.imported_globals as int,
            );
        }
        self.vmctx_vmmemory_import(index) + (self.vmmemory_import_vmctx() as u32)
    }

    /// Return the offset to the `base` field of the owned memory
    /// definition record at `index`.
    #[inline]
    pub fn vmctx_vmmemory_definition_base(&self, index: OwnedMemoryIndex) -> (r: u32)
        requires
            self.wf(),
            index.0 < self.num_owned_memories,
        ensures
            r == self.owned_memories + index.0 * (2 * self.psize()),
    {
        self.vmctx_vmmemory_definition(index) + (self.ptr.vmmemory_definition_base() as u32)
    }

    /// Return the offset to the `current_length` field of the owned
    /// memory definition record at `index`.
    #[inline]
    pub fn vmctx_vmmemory_definition_current_length(&self, index: OwnedMemoryIndex) -> (r: u32)
        requires
            self.wf(),
            index.0 < self.num_owned_memories,
        ensures
            r == self.owned_memories + index.0 * (2 * self.psize()) + self.psize(),
    {
        proof {
            self.to_fields().lemma_layout_monotone();
            self.lemma_indexed_slot_fits(
                index.0 as int,
                self.num_owned_memories as int,
                2 * self.psize(),
                self.owned_memories as int,
                self.owned_memories as int + self.num_owned_memories as int * (2 * self.psize()),
            );
        }
        self.vmctx_vmmemory_definition(index) + (self.ptr.vmmemory_definition_current_length()
            as u32)
    }

    /// Return the offset to the `from` field of the global import record
    /// at `index`.
    #[inline]
    pub fn vmctx_vmglobal_import_from(&self, index: GlobalIndex) -> (r: u32)
        requires
            self.wf(),
            index.0 < self.num_imported_globals,
        ensures
            r == self.imported_globals + index.0 * self.psize(),
    {
        self.vmctx_vmglobal_import(index) + (self.vmglobal_import_from() as u32)
    }
}

/// The bytes covered by a region list: the sum of its entries' sizes.
pub open spec fn region_size_sum(s: Seq<(&'static str, u32)>) -> int
    decreases s.len(),
{
    if s.len() == 0 {
        0
    } else {
        region_size_sum(s.drop_last()) + s.last().1
    }
}

impl<P: PtrSize> VMOffsets<P> {
    /// Returns a list of pairs of a human-readable description and a byte
    /// size, walking the fields in reverse placement order. Together the
    /// entries cover every byte of the `VMContext`: their sizes sum to
    /// `size_of_vmctx`.
    pub fn region_sizes(&self) -> (r: Vec<(&'static str, u32)>)
        requires
            self.wf(),
        ensures
            r@.len() == 19,
            r@[0].1 == self.size - self.typed_continuations_payloads_ptr,
            r@[1].1 == self.typed_continuations_payloads_ptr - self.typed_continuations_store,
            r@[2].1 == self.typed_continuations_store - self.defined_func_refs,
            r@[3].1 == self.defined_func_refs - self.defined_globals,
            r@[4].1 == self.defined_globals - self.owned_memories,
            r@[5].1 == self.owned_memories - self.defined_memories,
            r@[6].1 == self.defined_memories - self.defined_tables,
            r@[7].1 == self.defined_tables - self.imported_globals,
            r@[8].1 == self.imported_globals - self.imported_memories,
            r@[9].1 == self.imported_memories - self.imported_tables,
            r@[10].1 == self.imported_tables - self.imported_functions,
            r@[11].1 == self.imported_functions - self.signature_ids,
            r@[12].1 == self.signature_ids - self.builtin_functions,
            r@[13].1 == self.builtin_functions - self.store,
            r@[14].1 == self.store - self.externref_activations_table,
            r@[15].1 == self.externref_activations_table - self.epoch_ptr,
            r@[16].1 == self.epoch_ptr - self.callee,
            r@[17].1 == self.callee - self.runtime_limits,
            r@[18].1 == self.runtime_limits - self.magic,
            r@[0].0@ == "typed continuations payloads"@,
            r@[1].0@ == "typed continuations store"@,
            r@[2].0@ == "module functions"@,
            r@[3].0@ == "defined globals"@,
            r@[4].0@ == "owned memories"@,
            r@[5].0@ == "defined memories"@,
            r@[6].0@ == "defined tables"@,
            r@[7].0@ == "imported globals"@,
            r@[8].0@ == "imported memories"@,
            r@[9].0@ == "imported tables"@,
            r@[10].0@ == "imported functions"@,
            r@[11].0@ == "module types"@,
            r@[12].0@ == "jit builtin functions state"@,
            r@[13].0@ == "jit store state"@,
            r@[14].0@ == "jit host externref state"@,
            r@[15].0@ == "jit current epoch state"@,
            r@[16].0@ == "callee function pointer"@,
            r@[17].0@ == "jit runtime limits state"@,
            r@[18].0@ == "magic value"@,
            region_size_sum(r@) == self.size,
    {
        proof {
            self.to_fields().lemma_layout_monotone();
        }
        let s0 = self.size - self.typed_continuations_payloads_ptr;
        let s1 = self.typed_continuations_payloads_ptr - self.typed_continuations_store;
        let s2 = self.typed_continuations_store - self.defined_func_refs;
        let s3 = self.defined_func_refs - self.defined_globals;
        let s4 = self.defined_globals - self.owned_memories;
        let s5 = self.owned_memories - self.defined_memories;
        let s6 = self.defined_memories - self.defined_tables;
        let s7 = self.defined_tables - self.imported_globals;
        let s8 = self.imported_globals - self.imported_memories;
        let s9 = self.imported_memories - self.imported_tables;
        let s10 = self.imported_tables - self.imported_functions;
        let s11 = self.imported_functions - self.signature_ids;
        let s12 = self.signature_ids - self.builtin_functions;
        let s13 = self.builtin_functions - self.store;
        let s14 = self.store - self.externref_activations_table;
        let s15 = self.externref_activations_table - self.epoch_ptr;
        let s16 = self.epoch_ptr - self.callee;
        let s17 = self.callee - self.runtime_limits;
        let s18 = self.runtime_limits - self.magic;
        let r: Vec<(&'static str, u32)> = vec![
            ("typed continuations payloads", s0),
            ("typed continuations store", s1),
            ("module functions", s2),
            ("defined globals", s3),
            ("owned memories", s4),
            ("defined memories", s5),
            ("defined tables", s6),
            ("imported globals", s7),
            ("imported memories", s8),
            ("imported tables", s9),
            ("imported functions", s10),
            ("module types", s11),
            ("jit builtin functions state", s12),
            ("jit store state", s13),
            ("jit host externref state", s14),
            ("jit current epoch state", s15),
            ("callee function pointer", s16),
            ("jit runtime limits state", s17),
            ("magic value", s18),
        ];
        proof {
            assert(region_size_sum(r@) == self.size) by {
                reveal_with_fuel(region_size_sum, 20);
            }
        }
        r
    }
}

/// The layout input read off a module descriptor: its counts, narrowed to
/// the `u32` domain, with the defined counts split off the totals.
pub open spec fn fields_of_module<P>(ptr: P, m: crate::module::Module) -> VMOffsetsFields<P> {
    VMOffsetsFields {
        ptr,
        num_imported_functions: m.num_imported_funcs as u32,
        num_imported_tables: m.num_imported_tables as u32,
        num_imported_memories: m.num_imported_memories as u32,
        num_imported_globals: m.num_imported_globals as u32,
        num_defined_tables: (m.table_plans@.len() - m.num_imported_tables) as u32,
        num_defined_memories: (m.memory_plans@.len() - m.num_imported_memories) as u32,
        num_owned_memories: crate::module::count_owned_memories(
            m.memory_plans@,
            m.num_imported_memories as int,
        ) as u32,
        num_defined_globals: (m.globals@.len() - m.num_imported_globals) as u32,
        num_escaped_funcs: m.num_escaped_funcs as u32,
    }
}

impl<P: PtrSize> VMOffsets<P> {
    /// Return a new `VMOffsets` instance for a given pointer size and
    /// module descriptor.
    pub fn new(ptr: P, module: &crate::module::Module) -> (r: VMOffsets<P>)
        requires
            valid_ptr_width(ptr.spec_size()),
            module.wf(),
            fields_of_module(ptr, *module).total_size() <= u32::MAX,
        ensures
            r.to_fields() == fields_of_module(ptr, *module),
            r.wf(),
    {
        proof {
            crate::module::lemma_count_owned_memories_bound(
                module.memory_plans@,
                module.num_imported_memories as int,
            );
        }
        let num_owned_memories = cast_to_u32(module.num_owned_memories());
        VMOffsets::from(
            VMOffsetsFields {
                ptr,
                num_imported_functions: cast_to_u32(module.num_imported_funcs),
                num_imported_tables: cast_to_u32(module.num_imported_tables),
                num_imported_memories: cast_to_u32(module.num_imported_memories),
                num_imported_globals: cast_to_u32(module.num_imported_globals),
                num_defined_tables: cast_to_u32(
                    module.table_plans.len() - module.num_imported_tables,
                ),
                num_defined_memories: cast_to_u32(
                    module.memory_plans.len() - module.num_imported_memories,
                ),
                num_owned_memories,
                num_defined_globals: cast_to_u32(
                    module.globals.len() - module.num_imported_globals,
                ),
                num_escaped_funcs: cast_to_u32(module.num_escaped_funcs),
            },
        )
    }
}

/// Adding a multiple of the width keeps an offset on the width's grid.
proof fn lemma_add_multiple_keeps_mod(x: int, k: int, p: int)
    requires
        1 <= p,
        x % p == 0,
    ensures
        (x + k * p) % p == 0,
{
    vstd::arithmetic::div_mod::lemma_fundamental_div_mod(x, p);
    assert((x / p + k) * p == (x / p) * p + k * p) by {
        vstd::arithmetic::mul::lemma_mul_is_distributive_add_other_way(p, x / p, k);
    }
    assert(x == (x / p) * p) by {
        vstd::arithmetic::mul::lemma_mul_is_commutative(p, x / p);
    }
    vstd::arithmetic::div_mod::lemma_mod_multiples_basic(x / p + k, p);
}

/// A multiple of 16 is a multiple of any width that divides 16.
proof fn lemma_multiple_of_divisor(x: int, p: int)
    requires
        1 <= p,
        x % 16 == 0,
        16int % p == 0,
    ensures
        x % p == 0,
{
    let a = x / 16;
    let b = 16int / p;
    vstd::arithmetic::div_mod::lemma_fundamental_div_mod(x, 16);
    vstd::arithmetic::div_mod::lemma_fundamental_div_mod(16, p);
    assert(x == (p * b) * a);
    assert((p * b) * a == p * (b * a)) by {
        vstd::arithmetic::mul::lemma_mul_is_associative(p, b, a);
    }
    assert(p * (b * a) == (b * a) * p) by {
        vstd::arithmetic::mul::lemma_mul_is_commutative(p, b * a);
    }
    vstd::arithmetic::div_mod::lemma_mod_multiples_basic(b * a, p);
}

/// **Monotone placement.** For every adjacent pair of fields in placement
/// order, the later field's offset is at least the earlier field's offset
/// plus the earlier field's size, and the last field ends at or before
/// the total size.
pub proof fn lemma_monotone_placement<P: PtrSize>(offsets: VMOffsets<P>)
    requires
        offsets.wf(),
    ensures
        offsets.magic + 4 <= offsets.runtime_limits,
        offsets.runtime_limits + offsets.psize() <= offsets.callee,
        offsets.callee + offsets.psize() <= offsets.epoch_ptr,
        offsets.epoch_ptr + offsets.psize() <= offsets.externref_activations_table,
        offsets.externref_activations_table + offsets.psize() <= offsets.store,
        offsets.store + 2 * offsets.psize() <= offsets.builtin_functions,
        offsets.builtin_functions + offsets.psize() <= offsets.signature_ids,
        offsets.signature_ids + offsets.psize() <= offsets.imported_functions,
        offsets.imported_functions + offsets.num_imported_functions * (4 * offsets.psize())
            <= offsets.imported_tables,
        offsets.imported_tables + offsets.num_imported_tables * (2 * offsets.psize())
            <= offsets.imported_memories,
        offsets.imported_memories + offsets.num_imported_memories * (3 * offsets.psize())
            <= offsets.imported_globals,
        offsets.imported_globals + offsets.num_imported_globals * offsets.psize()
            <= offsets.defined_tables,
        offsets.defined_tables + offsets.num_defined_tables * (2 * offsets.psize())
            <= offsets.defined_memories,
        offsets.defined_memories + offsets.num_defined_memories * offsets.psize()
            <= offsets.owned_memories,
        offsets.owned_memories + offsets.num_owned_memories * (2 * offsets.psize())
            <= offsets.defined_globals,
        offsets.defined_globals + offsets.num_defined_globals * 16 <= offsets.defined_func_refs,
        offsets.defined_func_refs + offsets.num_escaped_funcs * (5 * offsets.psize())
            <= offsets.typed_continuations_store,
        offsets.typed_continuations_store + offsets.psize()
            <= offsets.typed_continuations_payloads_ptr,
        offsets.typed_continuations_payloads_ptr + offsets.psize() <= offsets.size,
{
    offsets.to_fields().lemma_layout_monotone();
}

/// **Alignment.** When the pointer width divides 16, every pointer-typed
/// field offset is a multiple of the pointer width, and both the
/// defined-globals array and the total size are multiples of 16.
pub proof fn lemma_alignment<P: PtrSize>(offsets: VMOffsets<P>)
    requires
        offsets.wf(),
        16int % offsets.psize() == 0,
    ensures
        offsets.runtime_limits as int % offsets.psize() == 0,
        offsets.callee as int % offsets.psize() == 0,
        offsets.epoch_ptr as int % offsets.psize() == 0,
        offsets.externref_activations_table as int % offsets.psize() == 0,
        offsets.store as int % offsets.psize() == 0,
        offsets.builtin_functions as int % offsets.psize() == 0,
        offsets.signature_ids as int % offsets.psize() == 0,
        offsets.imported_functions as int % offsets.psize() == 0,
        offsets.imported_tables as int % offsets.psize() == 0,
        offsets.imported_memories as int % offsets.psize() == 0,
        offsets.imported_globals as int % offsets.psize() == 0,
        offsets.defined_tables as int % offsets.psize() == 0,
        offsets.defined_memories as int % offsets.psize() == 0,
        offsets.owned_memories as int % offsets.psize() == 0,
        offsets.defined_globals % 16 == 0,
        offsets.defined_globals as int % offsets.psize() == 0,
        offsets.defined_func_refs as int % offsets.psize() == 0,
        offsets.typed_continuations_store as int % offsets.psize() == 0,
        offsets.typed_continuations_payloads_ptr as int % offsets.psize() == 0,
        offsets.size % 16 == 0,
        offsets.size as int % offsets.psize() == 0,
{
    let p = offsets.psize();
    let f = offsets.to_fields();
    f.lemma_layout_monotone();
    lemma_align_spec(4, p);
    assert(f.off_runtime_limits() % p == 0);
    lemma_add_multiple_keeps_mod(f.off_runtime_limits(), 1, p);
    assert(f.off_callee() == f.off_runtime_limits() + 1 * p);
    lemma_add_multiple_keeps_mod(f.off_callee(), 1, p);
    assert(f.off_epoch_ptr() == f.off_callee() + 1 * p);
    lemma_add_multiple_keeps_mod(f.off_epoch_ptr(), 1, p);
    assert(f.off_externref_activations_table() == f.off_epoch_ptr() + 1 * p);
    lemma_add_multiple_keeps_mod(f.off_externref_activations_table(), 1, p);
    assert(f.off_store() == f.off_externref_activations_table() + 1 * p);
    lemma_add_multiple_keeps_mod(f.off_store(), 2, p);
    assert(f.off_builtin_functions() == f.off_store() + 2 * p);
    lemma_add_multiple_keeps_mod(f.off_builtin_functions(), 1, p);
    assert(f.off_signature_ids() == f.off_builtin_functions() + 1 * p);
    lemma_add_multiple_keeps_mod(f.off_signature_ids(), 1, p);
    assert(f.off_imported_functions() == f.off_signature_ids() + 1 * p);
    assert(f.num_imported_functions * (4 * p) == (f.num_imported_functions * 4) * p) by {
        vstd::arithmetic::mul::lemma_mul_is_associative(f.num_imported_functions as int, 4, p);
    }
    lemma_add_multiple_keeps_mod(f.off_imported_functions(), f.num_imported_functions * 4, p);
    assert(f.num_imported_tables * (2 * p) == (f.num_imported_tables * 2) * p) by {
        vstd::arithmetic::mul::lemma_mul_is_associative(f.num_imported_tables as int, 2, p);
    }
    lemma_add_multiple_keeps_mod(f.off_imported_tables(), f.num_imported_tables * 2, p);
    assert(f.num_imported_memories * (3 * p) == (f.num_imported_memories * 3) * p) by {
        vstd::arithmetic::mul::lemma_mul_is_associative(f.num_imported_memories as int, 3, p);
    }
    lemma_add_multiple_keeps_mod(f.off_imported_memories(), f.num_imported_memories * 3, p);
    lemma_add_multiple_keeps_mod(f.off_imported_globals(), f.num_imported_globals as int, p);
    assert(f.num_defined_tables * (2 * p) == (f.num_defined_tables * 2) * p) by {
        vstd::arithmetic::mul::lemma_mul_is_associative(f.num_defined_tables as int, 2, p);
    }
    lemma_add_multiple_keeps_mod(f.off_defined_tables(), f.num_defined_tables * 2, p);
    lemma_add_multiple_keeps_mod(f.off_defined_memories(), f.num_defined_memories as int, p);
    lemma_align_spec(f.off_owned_memories() + f.num_owned_memories * (2 * p), 16);
    assert(f.off_defined_globals() % 16 == 0);
    lemma_multiple_of_divisor(f.off_defined_globals(), p);
    vstd::arithmetic::div_mod::lemma_fundamental_div_mod(16, p);
    assert(f.num_defined_globals * 16 == (f.num_defined_globals * (16int / p)) * p) by {
        vstd::arithmetic::mul::lemma_mul_is_associative(
            f.num_defined_globals as int,
            16int / p,
            p,
        );
        vstd::arithmetic::mul::lemma_mul_is_commutative(16int / p, p);
    }
    lemma_add_multiple_keeps_mod(f.off_defined_globals(), f.num_defined_globals * (16int / p), p);
    assert(f.num_escaped_funcs * (5 * p) == (f.num_escaped_funcs * 5) * p) by {
        vstd::arithmetic::mul::lemma_mul_is_associative(f.num_escaped_funcs as int, 5, p);
    }
    lemma_add_multiple_keeps_mod(f.off_defined_func_refs(), f.num_escaped_funcs * 5, p);
    lemma_add_multiple_keeps_mod(f.off_typed_continuations_store(), 1, p);
    assert(f.off_typed_continuations_payloads_ptr() == f.off_typed_continuations_store() + 1 * p);
    lemma_align_spec(f.off_typed_continuations_payloads_ptr() + p, 16);
    assert(f.total_size() % 16 == 0);
    lemma_multiple_of_divisor(f.total_size(), p);
}

/// Offsets for external data records.
impl<P: PtrSize> VMOffsets<P> {
    /// Return the offset of the reference count of an external data
    /// record.
    #[inline]
    pub fn vm_extern_data_ref_count(&self) -> (r: u32)
        ensures
            r == 0,
    {
        0
    }
}

/// Offsets for the externref activations table.
impl<P: PtrSize> VMOffsets<P> {
    /// Return the offset of the `next` bump pointer.
    #[inline]
    pub fn vm_extern_ref_activation_table_next(&self) -> (r: u32)
        ensures
            r == 0,
    {
        0
    }

    /// Return the offset of the `end` bump limit.
    #[inline]
    pub fn vm_extern_ref_activation_table_end(&self) -> (r: u32)
        ensures
            r == self.ptr.spec_size(),
    {
        self.pointer_size() as u32
    }
}

} // verus!
