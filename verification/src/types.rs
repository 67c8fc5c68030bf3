//! The WebAssembly type model: value, reference, heap, function, table,
//! memory, global and tag types, together with the dense index spaces that
//! the module descriptor and the layout engine key their entities by.

use vstd::prelude::*;
use vstd::string::StringExecFns;
use crate::wire::{WireFuncType, WireGlobalType, WireHeapType, WireMemoryType, WireRefType,
    WireTableType, WireTagKind, WireTagType, WireType, WireValType};

verus! {

/// A translation error: malformed or unsupported module input.
#[derive(Copy, Clone, Debug, PartialEq, Eq, Structural)]
pub enum WasmError {
    /// A type uses a constructor that this engine does not know.
    InvalidType,
    /// A declaration refers to an entity index that was never declared.
    IndexOutOfBounds,
    /// A second start function was declared.
    DuplicateStart,
    /// The input uses a feature this engine does not support.
    Unsupported,
}

/// The result of an operation that can fail with a translation error.
pub type WasmResult<T> = Result<T, WasmError>;

/// Index type of a function (imported or defined) inside the module.
#[derive(Copy, Clone, PartialEq, Eq, Structural, Hash, PartialOrd, Ord, Debug)]
pub struct FuncIndex(pub u32);

/// Index type of a defined function inside the module.
#[derive(Copy, Clone, PartialEq, Eq, Structural, Hash, PartialOrd, Ord, Debug)]
pub struct DefinedFuncIndex(pub u32);

/// Index type of a defined table inside the module.
#[derive(Copy, Clone, PartialEq, Eq, Structural, Hash, PartialOrd, Ord, Debug)]
pub struct DefinedTableIndex(pub u32);

/// Index type of a defined memory inside the module.
#[derive(Copy, Clone, PartialEq, Eq, Structural, Hash, PartialOrd, Ord, Debug)]
pub struct DefinedMemoryIndex(pub u32);

/// Index type of a memory owned by the module instance.
#[derive(Copy, Clone, PartialEq, Eq, Structural, Hash, PartialOrd, Ord, Debug)]
pub struct OwnedMemoryIndex(pub u32);

/// Index type of a defined global inside the module.
#[derive(Copy, Clone, PartialEq, Eq, Structural, Hash, PartialOrd, Ord, Debug)]
pub struct DefinedGlobalIndex(pub u32);

/// Index type of a table (imported or defined) inside the module.
#[derive(Copy, Clone, PartialEq, Eq, Structural, Hash, PartialOrd, Ord, Debug)]
pub struct TableIndex(pub u32);

/// Index type of a global variable (imported or defined) inside the module.
#[derive(Copy, Clone, PartialEq, Eq, Structural, Hash, PartialOrd, Ord, Debug)]
pub struct GlobalIndex(pub u32);

/// Index type of a linear memory (imported or defined) inside the module.
#[derive(Copy, Clone, PartialEq, Eq, Structural, Hash, PartialOrd, Ord, Debug)]
pub struct MemoryIndex(pub u32);

/// Index type of a signature (imported or defined) inside the module.
#[derive(Copy, Clone, PartialEq, Eq, Structural, Hash, PartialOrd, Ord, Debug)]
pub struct SignatureIndex(pub u32);

/// Index type of a passive data segment inside the module.
#[derive(Copy, Clone, PartialEq, Eq, Structural, Hash, PartialOrd, Ord, Debug)]
pub struct DataIndex(pub u32);

/// Index type of a passive element segment inside the module.
#[derive(Copy, Clone, PartialEq, Eq, Structural, Hash, PartialOrd, Ord, Debug)]
pub struct ElemIndex(pub u32);

/// Index type of a type inside the module.
#[derive(Copy, Clone, PartialEq, Eq, Structural, Hash, PartialOrd, Ord, Debug)]
pub struct TypeIndex(pub u32);

/// Index type of a tag inside the module.
#[derive(Copy, Clone, PartialEq, Eq, Structural, Hash, PartialOrd, Ord, Debug)]
pub struct TagIndex(pub u32);

/// Index type of an escaped function's slot in the `func_refs` array.
/// The all-ones value is reserved to mean "no slot".
#[derive(Copy, Clone, PartialEq, Eq, Structural, Hash, PartialOrd, Ord, Debug)]
pub struct FuncRefIndex(pub u32);

impl FuncIndex {
    /// Create an index from a dense `usize` position.
    pub fn new(index: usize) -> (r: Self)
        requires
            index < u32::MAX,
        ensures
            r.0 == index,
    {
        FuncIndex(index as u32)
    }

    /// Create an index directly from a `u32`.
    pub fn from_u32(index: u32) -> (r: Self)
        ensures
            r.0 == index,
    {
        FuncIndex(index)
    }

    /// Return the raw `u32` behind the index.
    pub fn as_u32(&self) -> (r: u32)
        ensures
            r == self.0,
    {
        self.0
    }

    /// Return the dense position of the index.
    pub fn index(&self) -> (r: usize)
        ensures
            r == self.0,
    {
        self.0 as usize
    }
}

impl DefinedFuncIndex {
    /// Create an index from a dense `usize` position.
    pub fn new(index: usize) -> (r: Self)
        requires
            index < u32::MAX,
        ensures
            r.0 == index,
    {
        DefinedFuncIndex(index as u32)
    }

    /// Create an index directly from a `u32`.
    pub fn from_u32(index: u32) -> (r: Self)
        ensures
            r.0 == index,
    {
        DefinedFuncIndex(index)
    }

    /// Return the raw `u32` behind the index.
    pub fn as_u32(&self) -> (r: u32)
        ensures
            r == self.0,
    {
        self.0
    }

    /// Return the dense position of the index.
    pub fn index(&self) -> (r: usize)
        ensures
            r == self.0,
    {
        self.0 as usize
    }
}

impl DefinedTableIndex {
    /// Create an index from a dense `usize` position.
    pub fn new(index: usize) -> (r: Self)
        requires
            index < u32::MAX,
        ensures
            r.0 == index,
    {
        DefinedTableIndex(index as u32)
    }

    /// Create an index directly from a `u32`.
    pub fn from_u32(index: u32) -> (r: Self)
        ensures
            r.0 == index,
    {
        DefinedTableIndex(index)
    }

    /// Return the raw `u32` behind the index.
    pub fn as_u32(&self) -> (r: u32)
        ensures
            r == self.0,
    {
        self.0
    }

    /// Return the dense position of the index.
    pub fn index(&self) -> (r: usize)
        ensures
            r == self.0,
    {
        self.0 as usize
    }
}

impl DefinedMemoryIndex {
    /// Create an index from a dense `usize` position.
    pub fn new(index: usize) -> (r: Self)
        requires
            index < u32::MAX,
        ensures
            r.0 == index,
    {
        DefinedMemoryIndex(index as u32)
    }

    /// Create an index directly from a `u32`.
    pub fn from_u32(index: u32) -> (r: Self)
        ensures
            r.0 == index,
    {
        DefinedMemoryIndex(index)
    }

    /// Return the raw `u32` behind the index.
    pub fn as_u32(&self) -> (r: u32)
        ensures
            r == self.0,
    {
        self.0
    }

    /// Return the dense position of the index.
    pub fn index(&self) -> (r: usize)
        ensures
            r == self.0,
    {
        self.0 as usize
    }
}

impl OwnedMemoryIndex {
    /// Create an index from a dense `usize` position.
    pub fn new(index: usize) -> (r: Self)
        requires
            index < u32::MAX,
        ensures
            r.0 == index,
    {
        OwnedMemoryIndex(index as u32)
    }

    /// Create an index directly from a `u32`.
    pub fn from_u32(index: u32) -> (r: Self)
        ensures
            r.0 == index,
    {
        OwnedMemoryIndex(index)
    }

    /// Return the raw `u32` behind the index.
    pub fn as_u32(&self) -> (r: u32)
        ensures
            r == self.0,
    {
        self.0
    }

    /// Return the dense position of the index.
    pub fn index(&self) -> (r: usize)
        ensures
            r == self.0,
    {
        self.0 as usize
    }
}

impl DefinedGlobalIndex {
    /// Create an index from a dense `usize` position.
    pub fn new(index: usize) -> (r: Self)
        requires
            index < u32::MAX,
        ensures
            r.0 == index,
    {
        DefinedGlobalIndex(index as u32)
    }

    /// Create an index directly from a `u32`.
    pub fn from_u32(index: u32) -> (r: Self)
        ensures
            r.0 == index,
    {
        DefinedGlobalIndex(index)
    }

    /// Return the raw `u32` behind the index.
    pub fn as_u32(&self) -> (r: u32)
        ensures
            r == self.0,
    {
        self.0
    }

    /// Return the dense position of the index.
    pub fn index(&self) -> (r: usize)
        ensures
            r == self.0,
    {
        self.0 as usize
    }
}

impl TableIndex {
    /// Create an index from a dense `usize` position.
    pub fn new(index: usize) -> (r: Self)
        requires
            index < u32::MAX,
        ensures
            r.0 == index,
    {
        TableIndex(index as u32)
    }

    /// Create an index directly from a `u32`.
    pub fn from_u32(index: u32) -> (r: Self)
        ensures
            r.0 == index,
    {
        TableIndex(index)
    }

    /// Return the raw `u32` behind the index.
    pub fn as_u32(&self) -> (r: u32)
        ensures
            r == self.0,
    {
        self.0
    }

    /// Return the dense position of the index.
    pub fn index(&self) -> (r: usize)
        ensures
            r == self.0,
    {
        self.0 as usize
    }
}

impl GlobalIndex {
    /// Create an index from a dense `usize` position.
    pub fn new(index: usize) -> (r: Self)
        requires
            index < u32::MAX,
        ensures
            r.0 == index,
    {
        GlobalIndex(index as u32)
    }

    /// Create an index directly from a `u32`.
    pub fn from_u32(index: u32) -> (r: Self)
        ensures
            r.0 == index,
    {
        GlobalIndex(index)
    }

    /// Return the raw `u32` behind the index.
    pub fn as_u32(&self) -> (r: u32)
        ensures
            r == self.0,
    {
        self.0
    }

    /// Return the dense position of the index.
    pub fn index(&self) -> (r: usize)
        ensures
            r == self.0,
    {
        self.0 as usize
    }
}

impl MemoryIndex {
    /// Create an index from a dense `usize` position.
    pub fn new(index: usize) -> (r: Self)
        requires
            index < u32::MAX,
        ensures
            r.0 == index,
    {
        MemoryIndex(index as u32)
    }

    /// Create an index directly from a `u32`.
    pub fn from_u32(index: u32) -> (r: Self)
        ensures
            r.0 == index,
    {
        MemoryIndex(index)
    }

    /// Return the raw `u32` behind the index.
    pub fn as_u32(&self) -> (r: u32)
        ensures
            r == self.0,
    {
        self.0
    }

    /// Return the dense position of the index.
    pub fn index(&self) -> (r: usize)
        ensures
            r == self.0,
    {
        self.0 as usize
    }
}

impl SignatureIndex {
    /// Create an index from a dense `usize` position.
    pub fn new(index: usize) -> (r: Self)
        requires
            index < u32::MAX,
        ensures
            r.0 == index,
    {
        SignatureIndex(index as u32)
    }

    /// Create an index directly from a `u32`.
    pub fn from_u32(index: u32) -> (r: Self)
        ensures
            r.0 == index,
    {
        SignatureIndex(index)
    }

    /// Return the raw `u32` behind the index.
    pub fn as_u32(&self) -> (r: u32)
        ensures
            r == self.0,
    {
        self.0
    }

    /// Return the dense position of the index.
    pub fn index(&self) -> (r: usize)
        ensures
            r == self.0,
    {
        self.0 as usize
    }
}

impl DataIndex {
    /// Create an index from a dense `usize` position.
    pub fn new(index: usize) -> (r: Self)
        requires
            index < u32::MAX,
        ensures
            r.0 == index,
    {
        DataIndex(index as u32)
    }

    /// Create an index directly from a `u32`.
    pub fn from_u32(index: u32) -> (r: Self)
        ensures
            r.0 == index,
    {
        DataIndex(index)
    }

    /// Return the raw `u32` behind the index.
    pub fn as_u32(&self) -> (r: u32)
        ensures
            r == self.0,
    {
        self.0
    }

    /// Return the dense position of the index.
    pub fn index(&self) -> (r: usize)
        ensures
            r == self.0,
    {
        self.0 as usize
    }
}

impl ElemIndex {
    /// Create an index from a dense `usize` position.
    pub fn new(index: usize) -> (r: Self)
        requires
            index < u32::MAX,
        ensures
            r.0 == index,
    {
        ElemIndex(index as u32)
    }

    /// Create an index directly from a `u32`.
    pub fn from_u32(index: u32) -> (r: Self)
        ensures
            r.0 == index,
    {
        ElemIndex(index)
    }

    /// Return the raw `u32` behind the index.
    pub fn as_u32(&self) -> (r: u32)
        ensures
            r == self.0,
    {
        self.0
    }

    /// Return the dense position of the index.
    pub fn index(&self) -> (r: usize)
        ensures
            r == self.0,
    {
        self.0 as usize
    }
}

impl TypeIndex {
    /// Create an index from a dense `usize` position.
    pub fn new(index: usize) -> (r: Self)
        requires
            index < u32::MAX,
        ensures
            r.0 == index,
    {
        TypeIndex(index as u32)
    }

    /// Create an index directly from a `u32`.
    pub fn from_u32(index: u32) -> (r: Self)
        ensures
            r.0 == index,
    {
        TypeIndex(index)
    }

    /// Return the raw `u32` behind the index.
    pub fn as_u32(&self) -> (r: u32)
        ensures
            r == self.0,
    {
        self.0
    }

    /// Return the dense position of the index.
    pub fn index(&self) -> (r: usize)
        ensures
            r == self.0,
    {
        self.0 as usize
    }
}

impl TagIndex {
    /// Create an index from a dense `usize` position.
    pub fn new(index: usize) -> (r: Self)
        requires
            index < u32::MAX,
        ensures
            r.0 == index,
    {
        TagIndex(index as u32)
    }

    /// Create an index directly from a `u32`.
    pub fn from_u32(index: u32) -> (r: Self)
        ensures
            r.0 == index,
    {
        TagIndex(index)
    }

    /// Return the raw `u32` behind the index.
    pub fn as_u32(&self) -> (r: u32)
        ensures
            r == self.0,
    {
        self.0
    }

    /// Return the dense position of the index.
    pub fn index(&self) -> (r: usize)
        ensures
            r == self.0,
    {
        self.0 as usize
    }
}

impl FuncRefIndex {
    /// Create an index from a dense `usize` position.
    pub fn new(index: usize) -> (r: Self)
        requires
            index < u32::MAX,
        ensures
            r.0 == index,
    {
        FuncRefIndex(index as u32)
    }

    /// Create an index directly from a `u32`.
    pub fn from_u32(index: u32) -> (r: Self)
        ensures
            r.0 == index,
    {
        FuncRefIndex(index)
    }

    /// Return the raw `u32` behind the index.
    pub fn as_u32(&self) -> (r: u32)
        ensures
            r == self.0,
    {
        self.0
    }

    /// Return the dense position of the index.
    pub fn index(&self) -> (r: usize)
        ensures
            r == self.0,
    {
        self.0 as usize
    }

    /// The all-ones value stands for a function that has no `func_refs`
    /// slot.
    pub fn reserved_value() -> (r: Self)
        ensures
            r.0 == u32::MAX,
    {
        FuncRefIndex(u32::MAX)
    }

    /// Whether this index is the reserved "no slot" value.
    pub fn is_reserved_value(&self) -> (r: bool)
        ensures
            r == (self.0 == u32::MAX),
    {
        self.0 == u32::MAX
    }
}

/// WebAssembly value type: the engine's internal form.
#[derive(Copy, Clone, Debug, PartialEq, Eq, Structural, Hash)]
pub enum WasmType {
    /// I32 type.
    I32,
    /// I64 type.
    I64,
    /// F32 type, carried as bits.
    F32,
    /// F64 type, carried as bits.
    F64,
    /// V128 type.
    V128,
    /// Reference type.
    Ref(WasmRefType),
}

/// WebAssembly reference type: the engine's internal form.
#[derive(Copy, Clone, Debug, PartialEq, Eq, Structural, Hash)]
pub struct WasmRefType {
    /// Whether null belongs to the type.
    pub nullable: bool,
    /// What the reference points into.
    pub heap_type: WasmHeapType,
}

/// WebAssembly heap type: the engine's internal form. An index constructor
/// may appear only where the module opted into typed continuations.
#[derive(Copy, Clone, Debug, PartialEq, Eq, Structural, Hash)]
pub enum WasmHeapType {
    /// The bottom heap type.
    Bot,
    /// Any function.
    Func,
    /// Opaque host data.
    Extern,
    /// A typed function, by type-table index.
    FuncIndex(u32),
    /// A typed continuation, by type-table index.
    ContIndex(u32),
}

/// What converting a wire heap type yields when no type table is at hand:
/// an index constructor cannot be resolved and is rejected.
pub open spec fn heap_type_of_wire(ht: WireHeapType) -> WasmResult<WasmHeapType> {
    match ht {
        WireHeapType::Bot => Ok(WasmHeapType::Bot),
        WireHeapType::Func => Ok(WasmHeapType::Func),
        WireHeapType::Extern => Ok(WasmHeapType::Extern),
        WireHeapType::TypedFunc(_) => Err(WasmError::InvalidType),
    }
}

/// What converting a wire heap type yields against the module's type
/// table: an index constructor resolves to a typed function or a typed
/// continuation according to the entry it points at.
pub open spec fn resolve_heap_type(ht: WireHeapType, types: Seq<WireType>) -> WasmResult<
    WasmHeapType,
> {
    match ht {
        WireHeapType::Bot => Ok(WasmHeapType::Bot),
        WireHeapType::Func => Ok(WasmHeapType::Func),
        WireHeapType::Extern => Ok(WasmHeapType::Extern),
        WireHeapType::TypedFunc(i) => if i < types.len() {
            match types[i as int] {
                WireType::Func(_) => Ok(WasmHeapType::FuncIndex(i)),
                WireType::Cont(_) => Ok(WasmHeapType::ContIndex(i)),
            }
        } else {
            Err(WasmError::IndexOutOfBounds)
        },
    }
}

/// What converting a wire reference type yields when no type table is at
/// hand.
pub open spec fn ref_type_of_wire(rt: WireRefType) -> WasmResult<WasmRefType> {
    match heap_type_of_wire(rt.heap_type) {
        Ok(ht) => Ok(WasmRefType { nullable: rt.nullable, heap_type: ht }),
        Err(e) => Err(e),
    }
}

/// What converting a wire reference type yields against the module's type
/// table.
pub open spec fn resolve_ref_type(rt: WireRefType, types: Seq<WireType>) -> WasmResult<
    WasmRefType,
> {
    match resolve_heap_type(rt.heap_type, types) {
        Ok(ht) => Ok(WasmRefType { nullable: rt.nullable, heap_type: ht }),
        Err(e) => Err(e),
    }
}

/// What converting a wire value type yields when no type table is at hand.
pub open spec fn val_type_of_wire(ty: WireValType) -> WasmResult<WasmType> {
    match ty {
        WireValType::I32 => Ok(WasmType::I32),
        WireValType::I64 => Ok(WasmType::I64),
        WireValType::F32 => Ok(WasmType::F32),
        WireValType::F64 => Ok(WasmType::F64),
        WireValType::V128 => Ok(WasmType::V128),
        WireValType::Ref(rt) => match ref_type_of_wire(rt) {
            Ok(r) => Ok(WasmType::Ref(r)),
            Err(e) => Err(e),
        },
    }
}

/// What converting a wire value type yields against the module's type
/// table.
pub open spec fn resolve_val_type(ty: WireValType, types: Seq<WireType>) -> WasmResult<WasmType> {
    match ty {
        WireValType::I32 => Ok(WasmType::I32),
        WireValType::I64 => Ok(WasmType::I64),
        WireValType::F32 => Ok(WasmType::F32),
        WireValType::F64 => Ok(WasmType::F64),
        WireValType::V128 => Ok(WasmType::V128),
        WireValType::Ref(rt) => match resolve_ref_type(rt, types) {
            Ok(r) => Ok(WasmType::Ref(r)),
            Err(e) => Err(e),
        },
    }
}

/// The wire form of an internal heap type; both index constructors write a
/// type-table reference.
pub open spec fn wire_of_heap_type(ht: WasmHeapType) -> WireHeapType {
    match ht {
        WasmHeapType::Bot => WireHeapType::Bot,
        WasmHeapType::Func => WireHeapType::Func,
        WasmHeapType::Extern => WireHeapType::Extern,
        WasmHeapType::FuncIndex(i) => WireHeapType::TypedFunc(i),
        WasmHeapType::ContIndex(i) => WireHeapType::TypedFunc(i),
    }
}

/// The wire form of an internal reference type.
pub open spec fn wire_of_ref_type(rt: WasmRefType) -> WireRefType {
    WireRefType { nullable: rt.nullable, heap_type: wire_of_heap_type(rt.heap_type) }
}

/// The wire form of an internal value type.
pub open spec fn wire_of_val_type(ty: WasmType) -> WireValType {
    match ty {
        WasmType::I32 => WireValType::I32,
        WasmType::I64 => WireValType::I64,
        WasmType::F32 => WireValType::F32,
        WasmType::F64 => WireValType::F64,
        WasmType::V128 => WireValType::V128,
        WasmType::Ref(rt) => WireValType::Ref(wire_of_ref_type(rt)),
    }
}

impl WasmHeapType {
    /// Convert a wire heap type without a type table; an index constructor
    /// is rejected as an invalid type.
    pub fn try_from(ht: WireHeapType) -> (r: WasmResult<WasmHeapType>)
        ensures
            r == heap_type_of_wire(ht),
    {
        match ht {
            WireHeapType::Bot => Ok(WasmHeapType::Bot),
            WireHeapType::Func => Ok(WasmHeapType::Func),
            WireHeapType::Extern => Ok(WasmHeapType::Extern),
            WireHeapType::TypedFunc(_) => Err(WasmError::InvalidType),
        }
    }

    /// Convert a wire heap type, resolving an index constructor against
    /// the module's type table.
    pub fn from_heap_type(ht: WireHeapType, types: &Vec<WireType>) -> (r: WasmResult<WasmHeapType>)
        ensures
            r == resolve_heap_type(ht, types@),
    {
        match ht {
            WireHeapType::Bot => Ok(WasmHeapType::Bot),
            WireHeapType::Func => Ok(WasmHeapType::Func),
            WireHeapType::Extern => Ok(WasmHeapType::Extern),
            WireHeapType::TypedFunc(i) => {
                if (i as usize) < types.len() {
                    match types[i as usize] {
                        WireType::Func(_) => Ok(WasmHeapType::FuncIndex(i)),
                        WireType::Cont(_) => Ok(WasmHeapType::ContIndex(i)),
                    }
                } else {
                    Err(WasmError::IndexOutOfBounds)
                }
            },
        }
    }
}

impl WasmRefType {
    /// Convert a wire reference type without a type table.
    pub fn try_from(rt: WireRefType) -> (r: WasmResult<WasmRefType>)
        ensures
            r == ref_type_of_wire(rt),
    {
        match WasmHeapType::try_from(rt.heap_type) {
            Ok(ht) => Ok(WasmRefType { nullable: rt.nullable, heap_type: ht }),
            Err(e) => Err(e),
        }
    }

    /// Convert a wire reference type against the module's type table.
    pub fn from_ref_type(rt: WireRefType, types: &Vec<WireType>) -> (r: WasmResult<WasmRefType>)
        ensures
            r == resolve_ref_type(rt, types@),
    {
        match WasmHeapType::from_heap_type(rt.heap_type, types) {
            Ok(ht) => Ok(WasmRefType { nullable: rt.nullable, heap_type: ht }),
            Err(e) => Err(e),
        }
    }
}

impl WasmType {
    /// Convert a wire value type without a type table.
    pub fn try_from(ty: WireValType) -> (r: WasmResult<WasmType>)
        ensures
            r == val_type_of_wire(ty),
    {
        match ty {
            WireValType::I32 => Ok(WasmType::I32),
            WireValType::I64 => Ok(WasmType::I64),
            WireValType::F32 => Ok(WasmType::F32),
            WireValType::F64 => Ok(WasmType::F64),
            WireValType::V128 => Ok(WasmType::V128),
            WireValType::Ref(rt) => match WasmRefType::try_from(rt) {
                Ok(r) => Ok(WasmType::Ref(r)),
                Err(e) => Err(e),
            },
        }
    }

    /// Convert a wire value type against the module's type table.
    pub fn from_val_type(ty: WireValType, types: &Vec<WireType>) -> (r: WasmResult<WasmType>)
        ensures
            r == resolve_val_type(ty, types@),
    {
        match ty {
            WireValType::I32 => Ok(WasmType::I32),
            WireValType::I64 => Ok(WasmType::I64),
            WireValType::F32 => Ok(WasmType::F32),
            WireValType::F64 => Ok(WasmType::F64),
            WireValType::V128 => Ok(WasmType::V128),
            WireValType::Ref(rt) => match WasmRefType::from_ref_type(rt, types) {
                Ok(r) => Ok(WasmType::Ref(r)),
                Err(e) => Err(e),
            },
        }
    }
}

impl WireHeapType {
    /// The wire form of an internal heap type.
    pub fn from(ht: WasmHeapType) -> (r: WireHeapType)
        ensures
            r == wire_of_heap_type(ht),
    {
        match ht {
            WasmHeapType::Bot => WireHeapType::Bot,
            WasmHeapType::Func => WireHeapType::Func,
            WasmHeapType::Extern => WireHeapType::Extern,
            WasmHeapType::FuncIndex(i) => WireHeapType::TypedFunc(i),
            WasmHeapType::ContIndex(i) => WireHeapType::TypedFunc(i),
        }
    }
}

impl WireRefType {
    /// The wire form of an internal reference type.
    pub fn from(rt: WasmRefType) -> (r: WireRefType)
        ensures
            r == wire_of_ref_type(rt),
    {
        WireRefType { nullable: rt.nullable, heap_type: WireHeapType::from(rt.heap_type) }
    }
}

impl WireValType {
    /// The wire form of an internal value type.
    pub fn from(ty: WasmType) -> (r: WireValType)
        ensures
            r == wire_of_val_type(ty),
    {
        match ty {
            WasmType::I32 => WireValType::I32,
            WasmType::I64 => WireValType::I64,
            WasmType::F32 => WireValType::F32,
            WasmType::F64 => WireValType::F64,
            WasmType::V128 => WireValType::V128,
            WasmType::Ref(rt) => WireValType::Ref(WireRefType::from(rt)),
        }
    }
}

/// Whether a value type is an `externref`: a reference into the extern
/// heap. These are the values the GC barrier fast path cares about.
pub open spec fn is_externref(ty: WasmType) -> bool {
    match ty {
        WasmType::Ref(rt) => rt.heap_type == WasmHeapType::Extern,
        _ => false,
    }
}

/// How many of the types in the sequence are `externref`s.
pub open spec fn count_externrefs(s: Seq<WasmType>) -> int
    decreases s.len(),
{
    if s.len() == 0 {
        0
    } else {
        count_externrefs(s.drop_last()) + if is_externref(s.last()) {
            1int
        } else {
            0int
        }
    }
}

/// The count over a prefix grows by the new element's contribution.
proof fn lemma_count_externrefs_push(s: Seq<WasmType>, i: int)
    requires
        0 <= i < s.len(),
    ensures
        count_externrefs(s.take(i + 1)) == count_externrefs(s.take(i)) + if is_externref(
            s[i],
        ) {
            1int
        } else {
            0int
        },
{
    assert(s.take(i + 1).drop_last() =~= s.take(i));
    assert(s.take(i + 1).last() == s[i]);
}

/// Count the `externref`s in a list of types.
fn externref_count(tys: &Vec<WasmType>) -> (r: usize)
    ensures
        r == count_externrefs(tys@),
{
    let mut count: usize = 0;
    let mut i: usize = 0;
    while i < tys.len()
        invariant
            0 <= i <= tys@.len(),
            count == count_externrefs(tys@.take(i as int)),
            count <= i,
        decreases tys@.len() - i,
    {
        proof {
            lemma_count_externrefs_push(tys@, i as int);
        }
        let ty = tys[i];
        if match ty {
            WasmType::Ref(rt) => match rt.heap_type {
                WasmHeapType::Extern => true,
                _ => false,
            },
            _ => false,
        } {
            count = count + 1;
        }
        i = i + 1;
    }
    proof {
        assert(tys@.take(tys@.len() as int) =~= tys@);
    }
    count
}

/// WebAssembly function type: ordered parameter and return lists, with
/// cached counts of the `externref`-typed entries in each.
#[derive(Clone, Debug, Hash)]
pub struct WasmFuncType {
    /// Parameter types, in order.
    pub params: Vec<WasmType>,
    /// Cached count of `externref`-typed parameters.
    pub externref_params_count: usize,
    /// Result types, in order.
    pub results: Vec<WasmType>,
    /// Cached count of `externref`-typed results.
    pub externref_results_count: usize,
}

impl WasmFuncType {
    /// Build a function type from its parameter and return lists; the two
    /// `externref` counts are derived here.
    pub fn new(params: Vec<WasmType>, results: Vec<WasmType>) -> (r: WasmFuncType)
        ensures
            r.params@ == params@,
            r.results@ == results@,
            r.externref_params_count == count_externrefs(params@),
            r.externref_results_count == count_externrefs(results@),
    {
        let externref_params_count = externref_count(&params);
        let externref_results_count = externref_count(&results);
        WasmFuncType { params, externref_params_count, results, externref_results_count }
    }

    /// Function parameter types.
    pub fn params(&self) -> (r: &Vec<WasmType>)
        ensures
            r@ == self.params@,
    {
        &self.params
    }

    /// How many `externref`s are in this function's parameters?
    pub fn externref_params_count(&self) -> (r: usize)
        ensures
            r == self.externref_params_count,
    {
        self.externref_params_count
    }

    /// Function return types.
    pub fn results(&self) -> (r: &Vec<WasmType>)
        ensures
            r@ == self.results@,
    {
        &self.results
    }

    /// How many `externref`s are in this function's results?
    pub fn externref_results_count(&self) -> (r: usize)
        ensures
            r == self.externref_results_count,
    {
        self.externref_results_count
    }

    /// Whether the cached counts agree with the lists; `new` establishes
    /// this and nothing can break it.
    pub open spec fn wf(self) -> bool {
        self.externref_params_count == count_externrefs(self.params@)
            && self.externref_results_count == count_externrefs(self.results@)
    }
}

/// What resolving a whole list of wire value types yields: the first error
/// wins, otherwise the list of converted types.
pub open spec fn resolve_val_types(s: Seq<WireValType>, types: Seq<WireType>) -> WasmResult<
    Seq<WasmType>,
>
    decreases s.len(),
{
    if s.len() == 0 {
        Ok(Seq::empty())
    } else {
        match resolve_val_types(s.drop_last(), types) {
            Ok(front) => match resolve_val_type(s.last(), types) {
                Ok(t) => Ok(front.push(t)),
                Err(e) => Err(e),
            },
            Err(e) => Err(e),
        }
    }
}

/// What converting a whole list of wire value types without a type table
/// yields.
pub open spec fn convert_val_types(s: Seq<WireValType>) -> WasmResult<Seq<WasmType>>
    decreases s.len(),
{
    if s.len() == 0 {
        Ok(Seq::empty())
    } else {
        match convert_val_types(s.drop_last()) {
            Ok(front) => match val_type_of_wire(s.last()) {
                Ok(t) => Ok(front.push(t)),
                Err(e) => Err(e),
            },
            Err(e) => Err(e),
        }
    }
}

proof fn lemma_resolve_val_types_push(s: Seq<WireValType>, types: Seq<WireType>, i: int)
    requires
        0 <= i < s.len(),
    ensures
        resolve_val_types(s.take(i + 1), types) == (match resolve_val_types(s.take(i), types) {
            Ok(front) => match resolve_val_type(s[i], types) {
                Ok(t) => Ok::<Seq<WasmType>, WasmError>(front.push(t)),
                Err(e) => Err(e),
            },
            Err(e) => Err(e),
        }),
{
    assert(s.take(i + 1).drop_last() =~= s.take(i));
    assert(s.take(i + 1).last() == s[i]);
}

proof fn lemma_convert_val_types_push(s: Seq<WireValType>, i: int)
    requires
        0 <= i < s.len(),
    ensures
        convert_val_types(s.take(i + 1)) == (match convert_val_types(s.take(i)) {
            Ok(front) => match val_type_of_wire(s[i]) {
                Ok(t) => Ok::<Seq<WasmType>, WasmError>(front.push(t)),
                Err(e) => Err(e),
            },
            Err(e) => Err(e),
        }),
{
    assert(s.take(i + 1).drop_last() =~= s.take(i));
    assert(s.take(i + 1).last() == s[i]);
}

/// Once a prefix fails to resolve, the whole list fails the same way.
proof fn lemma_resolve_val_types_error_prefix(s: Seq<WireValType>, types: Seq<WireType>, i: int)
    requires
        0 <= i <= s.len(),
        resolve_val_types(s.take(i), types) is Err,
    ensures
        resolve_val_types(s, types) == resolve_val_types(s.take(i), types),
    decreases s.len() - i,
{
    if i < s.len() {
        lemma_resolve_val_types_push(s, types, i);
        lemma_resolve_val_types_error_prefix(s, types, i + 1);
    } else {
        assert(s.take(i) =~= s);
    }
}

/// Once a prefix fails to convert, the whole list fails the same way.
proof fn lemma_convert_val_types_error_prefix(s: Seq<WireValType>, i: int)
    requires
        0 <= i <= s.len(),
        convert_val_types(s.take(i)) is Err,
    ensures
        convert_val_types(s) == convert_val_types(s.take(i)),
    decreases s.len() - i,
{
    if i < s.len() {
        lemma_convert_val_types_push(s, i);
        lemma_convert_val_types_error_prefix(s, i + 1);
    } else {
        assert(s.take(i) =~= s);
    }
}

/// Resolve a list of wire value types against the module's type table.
fn resolve_val_type_list(s: &Vec<WireValType>, types: &Vec<WireType>) -> (r: WasmResult<
    Vec<WasmType>,
>)
    ensures
        match r {
            Ok(v) => resolve_val_types(s@, types@) == Ok::<Seq<WasmType>, WasmError>(v@),
            Err(e) => resolve_val_types(s@, types@) == Err::<Seq<WasmType>, WasmError>(e),
        },
{
    let mut out: Vec<WasmType> = Vec::new();
    let mut i: usize = 0;
    while i < s.len()
        invariant
            0 <= i <= s@.len(),
            resolve_val_types(s@.take(i as int), types@) == Ok::<Seq<WasmType>, WasmError>(out@),
        decreases s@.len() - i,
    {
        proof {
            lemma_resolve_val_types_push(s@, types@, i as int);
        }
        match WasmType::from_val_type(s[i], types) {
            Ok(t) => {
                out.push(t);
            },
            Err(e) => {
                proof {
                    lemma_resolve_val_types_error_prefix(s@, types@, i + 1);
                }
                return Err(e);
            },
        }
        i = i + 1;
    }
    proof {
        assert(s@.take(s@.len() as int) =~= s@);
    }
    Ok(out)
}

/// Convert a list of wire value types without a type table.
fn convert_val_type_list(s: &Vec<WireValType>) -> (r: WasmResult<Vec<WasmType>>)
    ensures
        match r {
            Ok(v) => convert_val_types(s@) == Ok::<Seq<WasmType>, WasmError>(v@),
            Err(e) => convert_val_types(s@) == Err::<Seq<WasmType>, WasmError>(e),
        },
{
    let mut out: Vec<WasmType> = Vec::new();
    let mut i: usize = 0;
    while i < s.len()
        invariant
            0 <= i <= s@.len(),
            convert_val_types(s@.take(i as int)) == Ok::<Seq<WasmType>, WasmError>(out@),
        decreases s@.len() - i,
    {
        proof {
            lemma_convert_val_types_push(s@, i as int);
        }
        match WasmType::try_from(s[i]) {
            Ok(t) => {
                out.push(t);
            },
            Err(e) => {
                proof {
                    lemma_convert_val_types_error_prefix(s@, i + 1);
                }
                return Err(e);
            },
        }
        i = i + 1;
    }
    proof {
        assert(s@.take(s@.len() as int) =~= s@);
    }
    Ok(out)
}

impl WasmFuncType {
    /// Resolve a wire function type against the module's type table and
    /// convert it to the internal form.
    pub fn from_func_type(ty: &WireFuncType, types: &Vec<WireType>) -> (r: WasmResult<
        WasmFuncType,
    >)
        ensures
            match resolve_val_types(ty.params@, types@) {
                Err(e) => r == Err::<WasmFuncType, WasmError>(e),
                Ok(ps) => match resolve_val_types(ty.results@, types@) {
                    Err(e) => r == Err::<WasmFuncType, WasmError>(e),
                    Ok(rs) => r matches Ok(f) && f.params@ == ps && f.results@ == rs
                        && f.externref_params_count == count_externrefs(ps)
                        && f.externref_results_count == count_externrefs(rs),
                },
            },
    {
        let params = match resolve_val_type_list(&ty.params, types) {
            Ok(v) => v,
            Err(e) => {
                return Err(e);
            },
        };
        let results = match resolve_val_type_list(&ty.results, types) {
            Ok(v) => v,
            Err(e) => {
                return Err(e);
            },
        };
        Ok(WasmFuncType::new(params, results))
    }

    /// Convert a wire function type without a type table; a type whose
    /// parameters or results use an index constructor is rejected.
    pub fn try_from(ty: &WireFuncType) -> (r: WasmResult<WasmFuncType>)
        ensures
            match convert_val_types(ty.params@) {
                Err(e) => r == Err::<WasmFuncType, WasmError>(e),
                Ok(ps) => match convert_val_types(ty.results@) {
                    Err(e) => r == Err::<WasmFuncType, WasmError>(e),
                    Ok(rs) => r matches Ok(f) && f.params@ == ps && f.results@ == rs
                        && f.externref_params_count == count_externrefs(ps)
                        && f.externref_results_count == count_externrefs(rs),
                },
            },
    {
        let params = match convert_val_type_list(&ty.params) {
            Ok(v) => v,
            Err(e) => {
                return Err(e);
            },
        };
        let results = match convert_val_type_list(&ty.results) {
            Ok(v) => v,
            Err(e) => {
                return Err(e);
            },
        };
        Ok(WasmFuncType::new(params, results))
    }
}

/// An index of an entity.
#[derive(Copy, Clone, PartialEq, Eq, Structural, Hash, Debug)]
pub enum EntityIndex {
    /// Function index.
    Function(FuncIndex),
    /// Table index.
    Table(TableIndex),
    /// Memory index.
    Memory(MemoryIndex),
    /// Global index.
    Global(GlobalIndex),
}

impl EntityIndex {
    /// Wrap a function index.
    pub fn from_func(idx: FuncIndex) -> (r: EntityIndex)
        ensures
            r == EntityIndex::Function(idx),
    {
        EntityIndex::Function(idx)
    }

    /// Wrap a table index.
    pub fn from_table(idx: TableIndex) -> (r: EntityIndex)
        ensures
            r == EntityIndex::Table(idx),
    {
        EntityIndex::Table(idx)
    }

    /// Wrap a memory index.
    pub fn from_memory(idx: MemoryIndex) -> (r: EntityIndex)
        ensures
            r == EntityIndex::Memory(idx),
    {
        EntityIndex::Memory(idx)
    }

    /// Wrap a global index.
    pub fn from_global(idx: GlobalIndex) -> (r: EntityIndex)
        ensures
            r == EntityIndex::Global(idx),
    {
        EntityIndex::Global(idx)
    }
}

/// A WebAssembly global: its value type, mutability and initializer.
#[derive(Copy, Clone, Debug, PartialEq, Eq, Structural, Hash)]
pub struct Global {
    /// The Wasm type of the value stored in the global.
    pub wasm_ty: WasmType,
    /// A flag indicating whether the value may change at runtime.
    pub mutability: bool,
    /// The source of the initial value.
    pub initializer: GlobalInit,
}

/// Globals are initialized via constant operators or by referring to
/// another import.
#[derive(Copy, Clone, Debug, PartialEq, Eq, Structural, Hash)]
pub enum GlobalInit {
    /// An `i32.const`.
    I32Const(i32),
    /// An `i64.const`.
    I64Const(i64),
    /// An `f32.const`, carried as bits.
    F32Const(u32),
    /// An `f64.const`, carried as bits.
    F64Const(u64),
    /// A `v128.const`.
    V128Const(u128),
    /// A `global.get` of another global.
    GetGlobal(GlobalIndex),
    /// A `ref.null`.
    RefNullConst,
    /// A `ref.func <index>`.
    RefFunc(FuncIndex),
    /// The global is imported from, and thus initialized by, a different
    /// module.
    Import,
}

impl Global {
    /// Create a new `Global` from its wire representation.
    pub fn new(ty: WireGlobalType, initializer: GlobalInit) -> (r: WasmResult<Global>)
        ensures
            match val_type_of_wire(ty.content_type) {
                Ok(t) => r == Ok::<Global, WasmError>(
                    Global { wasm_ty: t, mutability: ty.mutable, initializer },
                ),
                Err(e) => r == Err::<Global, WasmError>(e),
            },
    {
        match WasmType::try_from(ty.content_type) {
            Ok(t) => Ok(Global { wasm_ty: t, mutability: ty.mutable, initializer }),
            Err(e) => Err(e),
        }
    }
}

/// A WebAssembly table: element type and limits.
#[derive(Copy, Clone, Debug, PartialEq, Eq, Structural, Hash)]
pub struct Table {
    /// The table elements' Wasm type.
    pub wasm_ty: WasmRefType,
    /// The minimum number of elements in the table.
    pub minimum: u32,
    /// The maximum number of elements in the table.
    pub maximum: Option<u32>,
}

impl Table {
    /// Convert a wire table type.
    pub fn try_from(ty: WireTableType) -> (r: WasmResult<Table>)
        ensures
            match ref_type_of_wire(ty.element_type) {
                Ok(rt) => r == Ok::<Table, WasmError>(
                    Table { wasm_ty: rt, minimum: ty.initial, maximum: ty.maximum },
                ),
                Err(e) => r == Err::<Table, WasmError>(e),
            },
    {
        match WasmRefType::try_from(ty.element_type) {
            Ok(rt) => Ok(Table { wasm_ty: rt, minimum: ty.initial, maximum: ty.maximum }),
            Err(e) => Err(e),
        }
    }
}

/// A WebAssembly linear memory: limits and attributes.
#[derive(Copy, Clone, Debug, PartialEq, Eq, Structural, Hash)]
pub struct Memory {
    /// The minimum number of pages in the memory.
    pub minimum: u64,
    /// The maximum number of pages in the memory.
    pub maximum: Option<u64>,
    /// Whether the memory may be shared between multiple threads.
    pub shared: bool,
    /// Whether or not this is a 64-bit memory.
    pub memory64: bool,
}

impl Memory {
    /// Convert a wire memory type.
    pub fn from(ty: WireMemoryType) -> (r: Memory)
        ensures
            r == (Memory {
                minimum: ty.initial,
                maximum: ty.maximum,
                shared: ty.shared,
                memory64: ty.memory64,
            }),
    {
        Memory { minimum: ty.initial, maximum: ty.maximum, shared: ty.shared, memory64: ty.memory64 }
    }
}

/// A WebAssembly tag: the signature it routes.
#[derive(Copy, Clone, Debug, PartialEq, Eq, Structural, Hash)]
pub struct Tag {
    /// The tag's signature type.
    pub ty: TypeIndex,
}

impl Tag {
    /// Convert a wire tag type.
    pub fn from(ty: WireTagType) -> (r: Tag)
        ensures
            r == (Tag { ty: TypeIndex(ty.func_type_idx) }),
    {
        match ty.kind {
            WireTagKind::Exception => Tag { ty: TypeIndex(ty.func_type_idx) },
        }
    }
}

/// The character that writes a single decimal digit.
pub open spec fn digit_char(d: int) -> char {
    if d == 0 {
        '0'
    } else if d == 1 {
        '1'
    } else if d == 2 {
        '2'
    } else if d == 3 {
        '3'
    } else if d == 4 {
        '4'
    } else if d == 5 {
        '5'
    } else if d == 6 {
        '6'
    } else if d == 7 {
        '7'
    } else if d == 8 {
        '8'
    } else {
        '9'
    }
}

/// The decimal spelling of a nonnegative number, most significant digit
/// first.
pub open spec fn dec_str(n: int) -> Seq<char>
    decreases n,
{
    if n < 10 {
        seq![digit_char(n)]
    } else {
        dec_str(n / 10) + seq![digit_char(n % 10)]
    }
}

/// Write a number in decimal.
pub fn decimal_string(n: u32) -> (r: String)
    ensures
        r@ == dec_str(n as int),
    decreases n,
{
    let d = n % 10;
    let ds: &str = match d {
        0 => "0",
        1 => "1",
        2 => "2",
        3 => "3",
        4 => "4",
        5 => "5",
        6 => "6",
        7 => "7",
        8 => "8",
        _ => "9",
    };
    proof {
        reveal_strlit("0");
        reveal_strlit("1");
        reveal_strlit("2");
        reveal_strlit("3");
        reveal_strlit("4");
        reveal_strlit("5");
        reveal_strlit("6");
        reveal_strlit("7");
        reveal_strlit("8");
        reveal_strlit("9");
        assert(ds@ =~= seq![digit_char(d as int)]);
    }
    if n < 10 {
        let r = String::from_str(ds);
        r
    } else {
        let mut s = decimal_string(n / 10);
        s.append(ds);
        proof {
            assert(s@ =~= dec_str(n as int));
        }
        s
    }
}

/// The text of a heap type under the Wasm reference-type textual
/// convention: the named heaps write their names, a type-table index
/// writes its number.
pub open spec fn heap_type_text(ht: WasmHeapType) -> Seq<char> {
    match ht {
        WasmHeapType::Bot => "bot"@,
        WasmHeapType::Func => "func"@,
        WasmHeapType::Extern => "extern"@,
        WasmHeapType::FuncIndex(i) => dec_str(i as int),
        WasmHeapType::ContIndex(i) => dec_str(i as int),
    }
}

/// The text of a reference type: the two abbreviated forms for nullable
/// extern and func references, the parenthesized long form otherwise.
pub open spec fn ref_type_text(rt: WasmRefType) -> Seq<char> {
    if rt.heap_type == WasmHeapType::Extern {
        "externref"@
    } else if rt.heap_type == WasmHeapType::Func {
        "funcref"@
    } else if rt.nullable {
        "(ref null "@ + heap_type_text(rt.heap_type) + ")"@
    } else {
        "(ref "@ + heap_type_text(rt.heap_type) + ")"@
    }
}

/// The text of a value type.
pub open spec fn val_type_text(ty: WasmType) -> Seq<char> {
    match ty {
        WasmType::I32 => "i32"@,
        WasmType::I64 => "i64"@,
        WasmType::F32 => "f32"@,
        WasmType::F64 => "f64"@,
        WasmType::V128 => "v128"@,
        WasmType::Ref(rt) => ref_type_text(rt),
    }
}

impl WasmHeapType {
    /// Write the heap type under the textual convention.
    pub fn text(&self) -> (r: String)
        ensures
            r@ == heap_type_text(*self),
    {
        match self {
            WasmHeapType::Bot => String::from_str("bot"),
            WasmHeapType::Func => String::from_str("func"),
            WasmHeapType::Extern => String::from_str("extern"),
            WasmHeapType::FuncIndex(i) => decimal_string(*i),
            WasmHeapType::ContIndex(i) => decimal_string(*i),
        }
    }
}

impl WasmRefType {
    /// Write the reference type under the textual convention.
    pub fn text(&self) -> (r: String)
        ensures
            r@ == ref_type_text(*self),
    {
        match self.heap_type {
            WasmHeapType::Extern => String::from_str("externref"),
            WasmHeapType::Func => String::from_str("funcref"),
            _ => {
                let mut s = if self.nullable {
                    String::from_str("(ref null ")
                } else {
                    String::from_str("(ref ")
                };
                let ht = self.heap_type.text();
                s.append(ht.as_str());
                s.append(")");
                s
            },
        }
    }
}

impl WasmType {
    /// Write the value type under the textual convention.
    pub fn text(&self) -> (r: String)
        ensures
            r@ == val_type_text(*self),
    {
        match self {
            WasmType::I32 => String::from_str("i32"),
            WasmType::I64 => String::from_str("i64"),
            WasmType::F32 => String::from_str("f32"),
            WasmType::F64 => String::from_str("f64"),
            WasmType::V128 => String::from_str("v128"),
            WasmType::Ref(rt) => rt.text(),
        }
    }
}

/// A type of an item in a wasm module where an item is typically something
/// that can be exported.
#[derive(Clone, Debug)]
pub enum EntityType {
    /// A global variable with the specified content type.
    Global(Global),
    /// A linear memory with the specified limits.
    Memory(Memory),
    /// A tag definition.
    Tag(Tag),
    /// A table with the specified element type and limits.
    Table(Table),
    /// A function type whose index points to the type section.
    Function(SignatureIndex),
}

} // verus!
