//! The embedder-facing type descriptors: value, reference, heap,
//! function, global, table and memory types as a host presents them, with
//! conversions to and from the engine's internal type model.

use vstd::prelude::*;
use vstd::string::StringExecFns;
use crate::types::{EntityType, Memory, Table, WasmFuncType, WasmHeapType, WasmRefType, WasmType};

verus! {

/// Indicator of whether a global is mutable or not.
#[derive(Copy, Clone, Debug, PartialEq, Eq, Structural, Hash)]
pub enum Mutability {
    /// The global is constant and its value does not change.
    Const,
    /// The value of the global can change over time.
    Var,
}

/// A list of all possible value types in WebAssembly.
#[derive(Copy, Clone, Debug, PartialEq, Eq, Structural, Hash)]
pub enum ValType {
    /// 32-bit integer.
    I32,
    /// 64-bit integer.
    I64,
    /// 32-bit float, carried as bits.
    F32,
    /// 64-bit float, carried as bits.
    F64,
    /// A 128-bit number.
    V128,
    /// A typeful reference type.
    Ref(RefType),
}

/// A reference type: nullability and the heap it points into.
#[derive(Copy, Clone, Debug, PartialEq, Eq, Structural, Hash)]
pub struct RefType {
    /// Indicates whether the reference is nullable.
    pub nullable: bool,
    /// The reference's heap type.
    pub heap_type: HeapType,
}

/// A list of all possible heap types in WebAssembly.
#[derive(Copy, Clone, Debug, PartialEq, Eq, Structural, Hash)]
pub enum HeapType {
    /// A reference to a Wasm function.
    Func,
    /// A reference to opaque data in the Wasm instance.
    Extern,
    /// A typed reference to a Wasm function.
    FuncIndex(u32),
    /// A typed reference to a Wasm continuation.
    ContIndex(u32),
    /// A special bottom heap type.
    Bot,
}

/// The internal form of an embedder heap type.
pub open spec fn wasm_of_heap_type(ht: HeapType) -> WasmHeapType {
    match ht {
        HeapType::Func => WasmHeapType::Func,
        HeapType::Extern => WasmHeapType::Extern,
        HeapType::FuncIndex(i) => WasmHeapType::FuncIndex(i),
        HeapType::ContIndex(i) => WasmHeapType::ContIndex(i),
        HeapType::Bot => WasmHeapType::Bot,
    }
}

/// The embedder form of an internal heap type.
pub open spec fn heap_type_of_wasm(ht: WasmHeapType) -> HeapType {
    match ht {
        WasmHeapType::Func => HeapType::Func,
        WasmHeapType::Extern => HeapType::Extern,
        WasmHeapType::FuncIndex(i) => HeapType::FuncIndex(i),
        WasmHeapType::ContIndex(i) => HeapType::ContIndex(i),
        WasmHeapType::Bot => HeapType::Bot,
    }
}

/// The internal form of an embedder reference type.
pub open spec fn wasm_of_ref_type(rt: RefType) -> WasmRefType {
    WasmRefType { nullable: rt.nullable, heap_type: wasm_of_heap_type(rt.heap_type) }
}

/// The embedder form of an internal reference type.
pub open spec fn ref_type_of_wasm(rt: WasmRefType) -> RefType {
    RefType { nullable: rt.nullable, heap_type: heap_type_of_wasm(rt.heap_type) }
}

/// The internal form of an embedder value type.
pub open spec fn wasm_of_val_type(ty: ValType) -> WasmType {
    match ty {
        ValType::I32 => WasmType::I32,
        ValType::I64 => WasmType::I64,
        ValType::F32 => WasmType::F32,
        ValType::F64 => WasmType::F64,
        ValType::V128 => WasmType::V128,
        ValType::Ref(rt) => WasmType::Ref(wasm_of_ref_type(rt)),
    }
}

/// The embedder form of an internal value type.
pub open spec fn val_type_of_wasm(ty: WasmType) -> ValType {
    match ty {
        WasmType::I32 => ValType::I32,
        WasmType::I64 => ValType::I64,
        WasmType::F32 => ValType::F32,
        WasmType::F64 => ValType::F64,
        WasmType::V128 => ValType::V128,
        WasmType::Ref(rt) => ValType::Ref(ref_type_of_wasm(rt)),
    }
}

impl HeapType {
    /// The internal form of this heap type.
    pub fn to_wasm_heap_type(&self) -> (r: WasmHeapType)
        ensures
            r == wasm_of_heap_type(*self),
    {
        match self {
            HeapType::Func => WasmHeapType::Func,
            HeapType::Extern => WasmHeapType::Extern,
            HeapType::FuncIndex(i) => WasmHeapType::FuncIndex(*i),
            HeapType::ContIndex(i) => WasmHeapType::ContIndex(*i),
            HeapType::Bot => WasmHeapType::Bot,
        }
    }

    /// The embedder form of an internal heap type.
    pub fn from_wasm_heap_type(ht: &WasmHeapType) -> (r: HeapType)
        ensures
            r == heap_type_of_wasm(*ht),
    {
        match ht {
            WasmHeapType::Func => HeapType::Func,
            WasmHeapType::Extern => HeapType::Extern,
            WasmHeapType::FuncIndex(i) => HeapType::FuncIndex(*i),
            WasmHeapType::ContIndex(i) => HeapType::ContIndex(*i),
            WasmHeapType::Bot => HeapType::Bot,
        }
    }
}

impl RefType {
    /// The internal form of this reference type.
    pub fn to_wasm_ref_type(&self) -> (r: WasmRefType)
        ensures
            r == wasm_of_ref_type(*self),
    {
        WasmRefType { nullable: self.nullable, heap_type: self.heap_type.to_wasm_heap_type() }
    }

    /// The embedder form of an internal reference type.
    pub fn from_wasm_ref_type(rt: &WasmRefType) -> (r: RefType)
        ensures
            r == ref_type_of_wasm(*rt),
    {
        RefType { nullable: rt.nullable, heap_type: HeapType::from_wasm_heap_type(&rt.heap_type) }
    }
}

impl ValType {
    /// Returns true if this type is one of the numeric types.
    pub fn is_num(&self) -> (r: bool)
        ensures
            r == (*self == ValType::I32 || *self == ValType::I64 || *self == ValType::F32 || *self
                == ValType::F64),
    {
        match self {
            ValType::I32 | ValType::I64 | ValType::F32 | ValType::F64 => true,
            _ => false,
        }
    }

    /// Returns true if this type is a reference type.
    pub fn is_ref(&self) -> (r: bool)
        ensures
            r == (self matches ValType::Ref(_)),
    {
        match self {
            ValType::Ref(_) => true,
            _ => false,
        }
    }

    /// The internal form of this value type.
    pub fn to_wasm_type(&self) -> (r: WasmType)
        ensures
            r == wasm_of_val_type(*self),
    {
        match self {
            ValType::I32 => WasmType::I32,
            ValType::I64 => WasmType::I64,
            ValType::F32 => WasmType::F32,
            ValType::F64 => WasmType::F64,
            ValType::V128 => WasmType::V128,
            ValType::Ref(rt) => WasmType::Ref(rt.to_wasm_ref_type()),
        }
    }

    /// The embedder form of an internal value type.
    pub fn from_wasm_type(ty: &WasmType) -> (r: ValType)
        ensures
            r == val_type_of_wasm(*ty),
    {
        match ty {
            WasmType::I32 => ValType::I32,
            WasmType::I64 => ValType::I64,
            WasmType::F32 => ValType::F32,
            WasmType::F64 => ValType::F64,
            WasmType::V128 => ValType::V128,
            WasmType::Ref(rt) => ValType::Ref(RefType::from_wasm_ref_type(rt)),
        }
    }
}

/// The text of an embedder heap type under the textual convention.
pub open spec fn heap_text(ht: HeapType) -> Seq<char> {
    crate::types::heap_type_text(wasm_of_heap_type(ht))
}

/// The text of an embedder reference type under the textual convention.
pub open spec fn ref_text(rt: RefType) -> Seq<char> {
    crate::types::ref_type_text(wasm_of_ref_type(rt))
}

/// The text of an embedder value type under the textual convention.
pub open spec fn val_text(ty: ValType) -> Seq<char> {
    crate::types::val_type_text(wasm_of_val_type(ty))
}

impl HeapType {
    /// Write the heap type under the textual convention.
    pub fn text(&self) -> (r: String)
        ensures
            r@ == heap_text(*self),
    {
        self.to_wasm_heap_type().text()
    }
}

impl RefType {
    /// Write the reference type under the textual convention.
    pub fn text(&self) -> (r: String)
        ensures
            r@ == ref_text(*self),
    {
        self.to_wasm_ref_type().text()
    }
}

impl ValType {
    /// Write the value type under the textual convention.
    pub fn text(&self) -> (r: String)
        ensures
            r@ == val_text(*self),
    {
        self.to_wasm_type().text()
    }
}

/// The function types of one module, keyed by signature index.
#[derive(Clone, Debug)]
pub struct ModuleTypes {
    /// The function type at each signature index.
    pub wasm_signatures: Vec<WasmFuncType>,
}

/// A descriptor for a function in a WebAssembly module.
#[derive(Clone, Debug, Hash)]
pub struct FuncType {
    /// The internal signature this descriptor wraps.
    pub sig: WasmFuncType,
}

impl FuncType {
    /// Creates a new function descriptor from the given parameters and
    /// results.
    pub fn new(params: Vec<ValType>, results: Vec<ValType>) -> (r: FuncType)
        ensures
            r.sig.params@.len() == params@.len(),
            forall|i: int|
                0 <= i < params@.len() ==> r.sig.params@[i] == wasm_of_val_type(params@[i]),
            r.sig.results@.len() == results@.len(),
            forall|i: int|
                0 <= i < results@.len() ==> r.sig.results@[i] == wasm_of_val_type(results@[i]),
            r.sig.wf(),
    {
        let wasm_params = map_to_wasm(&params);
        let wasm_results = map_to_wasm(&results);
        FuncType { sig: WasmFuncType::new(wasm_params, wasm_results) }
    }

    /// Returns the list of parameter types for this function.
    pub fn params(&self) -> (r: Vec<ValType>)
        ensures
            r@.len() == self.sig.params@.len(),
            forall|i: int|
                0 <= i < r@.len() ==> r@[i] == val_type_of_wasm(self.sig.params@[i]),
    {
        map_from_wasm(self.sig.params())
    }

    /// Returns the list of result types for this function.
    pub fn results(&self) -> (r: Vec<ValType>)
        ensures
            r@.len() == self.sig.results@.len(),
            forall|i: int|
                0 <= i < r@.len() ==> r@[i] == val_type_of_wasm(self.sig.results@[i]),
    {
        map_from_wasm(self.sig.results())
    }

    /// The internal signature this descriptor wraps.
    pub fn as_wasm_func_type(&self) -> (r: &WasmFuncType)
        ensures
            r == self.sig,
    {
        &self.sig
    }

    /// Wrap an internal signature.
    pub fn from_wasm_func_type(sig: WasmFuncType) -> (r: FuncType)
        ensures
            r.sig == sig,
    {
        Self { sig }
    }
}

/// The internal forms of a list of embedder value types.
fn map_to_wasm(s: &Vec<ValType>) -> (r: Vec<WasmType>)
    ensures
        r@.len() == s@.len(),
        forall|i: int| 0 <= i < s@.len() ==> r@[i] == wasm_of_val_type(s@[i]),
{
    let mut out: Vec<WasmType> = Vec::new();
    let mut i: usize = 0;
    while i < s.len()
        invariant
            0 <= i <= s@.len(),
            out@.len() == i,
            forall|j: int| 0 <= j < i ==> out@[j] == wasm_of_val_type(s@[j]),
        decreases s@.len() - i,
    {
        out.push(s[i].to_wasm_type());
        i = i + 1;
    }
    out
}

/// The embedder forms of a list of internal value types.
fn map_from_wasm(s: &Vec<WasmType>) -> (r: Vec<ValType>)
    ensures
        r@.len() == s@.len(),
        forall|i: int| 0 <= i < s@.len() ==> r@[i] == val_type_of_wasm(s@[i]),
{
    let mut out: Vec<ValType> = Vec::new();
    let mut i: usize = 0;
    while i < s.len()
        invariant
            0 <= i <= s@.len(),
            out@.len() == i,
            forall|j: int| 0 <= j < i ==> out@[j] == val_type_of_wasm(s@[j]),
        decreases s@.len() - i,
    {
        out.push(ValType::from_wasm_type(&s[i]));
        i = i + 1;
    }
    out
}

/// A WebAssembly global descriptor: a value type and a mutability.
#[derive(Clone, Copy, Debug, PartialEq, Eq, Structural, Hash)]
pub struct GlobalType {
    /// The value type of the global.
    pub content: ValType,
    /// Whether the global may change at runtime.
    pub mutability: Mutability,
}

impl GlobalType {
    /// Creates a new global descriptor of the specified content type and
    /// mutability.
    pub fn new(content: ValType, mutability: Mutability) -> (r: GlobalType)
        ensures
            r == (GlobalType { content, mutability }),
    {
        GlobalType { content, mutability }
    }

    /// Returns the value type of this global descriptor.
    pub fn content(&self) -> (r: &ValType)
        ensures
            r == self.content,
    {
        &self.content
    }

    /// Returns whether or not this global is mutable.
    pub fn mutability(&self) -> (r: Mutability)
        ensures
            r == self.mutability,
    {
        self.mutability
    }

    /// The embedder form of an internal global.
    pub fn from_wasmtime_global(global: &crate::types::Global) -> (r: GlobalType)
        ensures
            r.content == val_type_of_wasm(global.wasm_ty),
            r.mutability == (if global.mutability {
                Mutability::Var
            } else {
                Mutability::Const
            }),
    {
        let ty = ValType::from_wasm_type(&global.wasm_ty);
        let mutability = if global.mutability {
            Mutability::Var
        } else {
            Mutability::Const
        };
        GlobalType::new(ty, mutability)
    }
}

/// A descriptor for a table in a WebAssembly module.
#[derive(Clone, Copy, Debug, PartialEq, Eq, Structural, Hash)]
pub struct TableType {
    /// The internal table this descriptor wraps.
    pub ty: Table,
}

impl TableType {
    /// Creates a new table descriptor with the specified element type and
    /// limits.
    pub fn new(element: RefType, min: u32, max: Option<u32>) -> (r: TableType)
        ensures
            r.ty.wasm_ty == wasm_of_ref_type(element),
            r.ty.minimum == min,
            r.ty.maximum == max,
    {
        TableType { ty: Table { wasm_ty: element.to_wasm_ref_type(), minimum: min, maximum: max } }
    }

    /// Returns the element type of this table.
    pub fn element(&self) -> (r: RefType)
        ensures
            r == ref_type_of_wasm(self.ty.wasm_ty),
    {
        RefType::from_wasm_ref_type(&self.ty.wasm_ty)
    }

    /// Returns the minimum number of elements this table must have.
    pub fn minimum(&self) -> (r: u32)
        ensures
            r == self.ty.minimum,
    {
        self.ty.minimum
    }

    /// Returns the optionally-specified maximum number of elements this
    /// table can have; `None` means the table is not limited in size.
    pub fn maximum(&self) -> (r: Option<u32>)
        ensures
            r == self.ty.maximum,
    {
        self.ty.maximum
    }

    /// The embedder form of an internal table.
    pub fn from_wasmtime_table(table: &Table) -> (r: TableType)
        ensures
            r.ty == *table,
    {
        TableType { ty: *table }
    }

    /// The internal table this descriptor wraps.
    pub fn wasmtime_table(&self) -> (r: &Table)
        ensures
            r == self.ty,
    {
        &self.ty
    }
}

/// A descriptor for a WebAssembly memory type, described in units of
/// 64 KiB pages.
#[derive(Clone, Copy, Debug, PartialEq, Eq, Structural, Hash)]
pub struct MemoryType {
    /// The internal memory this descriptor wraps.
    pub ty: Memory,
}

impl MemoryType {
    /// Creates a new descriptor for a 32-bit WebAssembly memory with the
    /// specified page limits.
    pub fn new(minimum: u32, maximum: Option<u32>) -> (r: MemoryType)
        ensures
            r.ty.memory64 == false,
            r.ty.shared == false,
            r.ty.minimum == minimum,
            r.ty.maximum == (match maximum {
                Some(m) => Some(m as u64),
                None => None::<u64>,
            }),
    {
        let maximum64 = match maximum {
            Some(m) => Some(m as u64),
            None => None,
        };
        MemoryType {
            ty: Memory {
                minimum: minimum as u64,
                maximum: maximum64,
                shared: false,
                memory64: false,
            },
        }
    }

    /// Creates a new descriptor for a 64-bit WebAssembly memory with the
    /// specified page limits.
    pub fn new64(minimum: u64, maximum: Option<u64>) -> (r: MemoryType)
        ensures
            r.ty == (Memory { minimum, maximum, shared: false, memory64: true }),
    {
        MemoryType { ty: Memory { minimum, maximum, shared: false, memory64: true } }
    }

    /// Creates a new descriptor for a shared 32-bit WebAssembly memory
    /// with the specified page limits.
    pub fn shared(minimum: u32, maximum: u32) -> (r: MemoryType)
        ensures
            r.ty.memory64 == false,
            r.ty.shared == true,
            r.ty.minimum == minimum,
            r.ty.maximum == Some(maximum as u64),
    {
        MemoryType {
            ty: Memory {
                minimum: minimum as u64,
                maximum: Some(maximum as u64),
                shared: true,
                memory64: false,
            },
        }
    }

    /// Returns whether this is a 64-bit memory.
    pub fn is_64(&self) -> (r: bool)
        ensures
            r == self.ty.memory64,
    {
        self.ty.memory64
    }

    /// Returns whether this is a shared memory.
    pub fn is_shared(&self) -> (r: bool)
        ensures
            r == self.ty.shared,
    {
        self.ty.shared
    }

    /// Returns the minimum number of pages this memory must have.
    pub fn minimum(&self) -> (r: u64)
        ensures
            r == self.ty.minimum,
    {
        self.ty.minimum
    }

    /// Returns the optionally-specified maximum number of pages this
    /// memory can have; `None` means the memory is not limited in size.
    pub fn maximum(&self) -> (r: Option<u64>)
        ensures
            r == self.ty.maximum,
    {
        self.ty.maximum
    }

    /// The embedder form of an internal memory.
    pub fn from_wasmtime_memory(memory: &Memory) -> (r: MemoryType)
        ensures
            r.ty == *memory,
    {
        MemoryType { ty: *memory }
    }

    /// The internal memory this descriptor wraps.
    pub fn wasmtime_memory(&self) -> (r: &Memory)
        ensures
            r == self.ty,
    {
        &self.ty
    }
}

/// A list of all possible types which can be externally referenced from a
/// WebAssembly module, as found in imports and exports.
#[derive(Clone, Debug)]
pub enum ExternType {
    /// The type of a WebAssembly function.
    Func(FuncType),
    /// The type of a WebAssembly global.
    Global(GlobalType),
    /// The type of a WebAssembly table.
    Table(TableType),
    /// The type of a WebAssembly memory.
    Memory(MemoryType),
}

/// Whether an embedder type is what an entity type turns into: a function
/// index resolves against the module's types, the others convert
/// directly. Tags have no embedder form.
pub open spec fn is_extern_type_of(r: ExternType, types: ModuleTypes, ty: EntityType) -> bool {
    match ty {
        EntityType::Function(idx) => match r {
            ExternType::Func(f) => {
                let base = types.wasm_signatures@[idx.0 as int];
                &&& f.sig.params@ == base.params@
                &&& f.sig.results@ == base.results@
                &&& f.sig.externref_params_count == base.externref_params_count
                &&& f.sig.externref_results_count == base.externref_results_count
            },
            _ => false,
        },
        EntityType::Global(g) => r == ExternType::Global(
            GlobalType {
                content: val_type_of_wasm(g.wasm_ty),
                mutability: if g.mutability {
                    Mutability::Var
                } else {
                    Mutability::Const
                },
            },
        ),
        EntityType::Memory(m) => r == ExternType::Memory(MemoryType { ty: m }),
        EntityType::Table(t) => r == ExternType::Table(TableType { ty: t }),
        EntityType::Tag(_) => false,
    }
}

impl ExternType {
    /// The function type, if this is one.
    pub fn func(&self) -> (r: Option<&FuncType>)
        ensures
            match r {
                Some(f) => *self matches ExternType::Func(g) && *f == g,
                None => !(*self matches ExternType::Func(_)),
            },
    {
        match self {
            ExternType::Func(f) => Some(f),
            _ => None,
        }
    }

    /// The global type, if this is one.
    pub fn global(&self) -> (r: Option<&GlobalType>)
        ensures
            match r {
                Some(g) => *self matches ExternType::Global(h) && *g == h,
                None => !(*self matches ExternType::Global(_)),
            },
    {
        match self {
            ExternType::Global(g) => Some(g),
            _ => None,
        }
    }

    /// The table type, if this is one.
    pub fn table(&self) -> (r: Option<&TableType>)
        ensures
            match r {
                Some(t) => *self matches ExternType::Table(u) && *t == u,
                None => !(*self matches ExternType::Table(_)),
            },
    {
        match self {
            ExternType::Table(t) => Some(t),
            _ => None,
        }
    }

    /// The memory type, if this is one.
    pub fn memory(&self) -> (r: Option<&MemoryType>)
        ensures
            match r {
                Some(m) => *self matches ExternType::Memory(n) && *m == n,
                None => !(*self matches ExternType::Memory(_)),
            },
    {
        match self {
            ExternType::Memory(m) => Some(m),
            _ => None,
        }
    }

    /// The embedder form of an entity type, with function indices
    /// resolved against the module's types. Tags have no embedder form
    /// and are not accepted here.
    pub fn from_wasmtime(types: &ModuleTypes, ty: &EntityType) -> (r: ExternType)
        requires
            !(ty matches EntityType::Tag(_)),
            ty matches EntityType::Function(idx) ==> idx.0 < types.wasm_signatures@.len(),
        ensures
            is_extern_type_of(r, *types, *ty),
    {
        match ty {
            EntityType::Function(idx) => {
                let sig = clone_func_type(&types.wasm_signatures[idx.0 as usize]);
                ExternType::Func(FuncType { sig })
            },
            EntityType::Global(g) => ExternType::Global(GlobalType::from_wasmtime_global(g)),
            EntityType::Memory(m) => ExternType::Memory(MemoryType::from_wasmtime_memory(m)),
            EntityType::Table(t) => ExternType::Table(TableType::from_wasmtime_table(t)),
            EntityType::Tag(_) => {
                let sig = clone_func_type(&types.wasm_signatures[0]);
                ExternType::Func(FuncType { sig })
            },
        }
    }
}

/// An identical copy of an internal function type.
fn clone_func_type(sig: &WasmFuncType) -> (r: WasmFuncType)
    ensures
        r.params@ == sig.params@,
        r.results@ == sig.results@,
        r.externref_params_count == sig.externref_params_count,
        r.externref_results_count == sig.externref_results_count,
{
    let mut params: Vec<WasmType> = Vec::new();
    let mut i: usize = 0;
    while i < sig.params.len()
        invariant
            0 <= i <= sig.params@.len(),
            params@ == sig.params@.take(i as int),
        decreases sig.params@.len() - i,
    {
        params.push(sig.params[i]);
        i = i + 1;
    }
    let mut results: Vec<WasmType> = Vec::new();
    let mut j: usize = 0;
    while j < sig.results.len()
        invariant
            0 <= j <= sig.results@.len(),
            results@ == sig.results@.take(j as int),
        decreases sig.results@.len() - j,
    {
        results.push(sig.results[j]);
        j = j + 1;
    }
    proof {
        assert(sig.params@.take(sig.params@.len() as int) =~= sig.params@);
        assert(sig.results@.take(sig.results@.len() as int) =~= sig.results@);
    }
    let r = WasmFuncType {
        params,
        externref_params_count: sig.externref_params_count(),
        results,
        externref_results_count: sig.externref_results_count(),
    };
    proof {
        assert(r.params@ =~= sig.params@);
        assert(r.results@ =~= sig.results@);
    }
    r
}

/// A descriptor for an imported value into a wasm module: the module and
/// field it comes from and the type expected of it.
#[derive(Clone, Debug)]
pub struct ImportType {
    /// The module of the import.
    pub module: String,
    /// The field of the import.
    pub name: String,
    /// The type of the import.
    pub ty: EntityType,
}

impl ImportType {
    /// Creates a new import descriptor which comes from `module` and
    /// `name` and is of type `ty`.
    pub fn new(module: String, name: String, ty: EntityType) -> (r: ImportType)
        ensures
            r.module@ == module@,
            r.name@ == name@,
            r.ty == ty,
    {
        ImportType { module, name, ty }
    }

    /// Returns the module name that this import is expected to come from.
    pub fn module(&self) -> (r: &String)
        ensures
            r@ == self.module@,
    {
        &self.module
    }

    /// Returns the field name of the module that this import is expected
    /// to come from.
    pub fn name(&self) -> (r: &String)
        ensures
            r@ == self.name@,
    {
        &self.name
    }

    /// Returns the expected type of this import, resolved against the
    /// module's types.
    pub fn ty(&self, types: &ModuleTypes) -> (r: ExternType)
        requires
            !(self.ty matches EntityType::Tag(_)),
            self.ty matches EntityType::Function(idx) ==> idx.0 < types.wasm_signatures@.len(),
        ensures
            is_extern_type_of(r, *types, self.ty),
    {
        ExternType::from_wasmtime(types, &self.ty)
    }
}

/// A descriptor for an exported WebAssembly value: the name under which
/// it is exported and the type of the exported item.
#[derive(Clone, Debug)]
pub struct ExportType {
    /// The name of the export.
    pub name: String,
    /// The type of the export.
    pub ty: EntityType,
}

impl ExportType {
    /// Creates a new export which is exported with the given `name` and
    /// has the given `ty`.
    pub fn new(name: String, ty: EntityType) -> (r: ExportType)
        ensures
            r.name@ == name@,
            r.ty == ty,
    {
        ExportType { name, ty }
    }

    /// Returns the name by which this export is known.
    pub fn name(&self) -> (r: &String)
        ensures
            r@ == self.name@,
    {
        &self.name
    }

    /// Returns the type of this export, resolved against the module's
    /// types.
    pub fn ty(&self, types: &ModuleTypes) -> (r: ExternType)
        requires
            !(self.ty matches EntityType::Tag(_)),
            self.ty matches EntityType::Function(idx) ==> idx.0 < types.wasm_signatures@.len(),
        ensures
            is_extern_type_of(r, *types, self.ty),
    {
        ExternType::from_wasmtime(types, &self.ty)
    }
}

} // verus!
