//! The wire-format view of types, as a decoder of the binary module format
//! hands them over: plain data that the conversions in [`crate::types`]
//! turn into the engine's internal type model.

use vstd::prelude::*;

verus! {

/// A value type as it appears on the wire.
#[derive(Copy, Clone, Debug, PartialEq, Eq, Structural)]
pub enum WireValType {
    /// 32-bit integer.
    I32,
    /// 64-bit integer.
    I64,
    /// 32-bit float, carried as bits.
    F32,
    /// 64-bit float, carried as bits.
    F64,
    /// 128-bit vector.
    V128,
    /// A reference type.
    Ref(WireRefType),
}

/// A reference type as it appears on the wire.
#[derive(Copy, Clone, Debug, PartialEq, Eq, Structural)]
pub struct WireRefType {
    /// Whether null belongs to the type.
    pub nullable: bool,
    /// What the reference points into.
    pub heap_type: WireHeapType,
}

/// A heap type as it appears on the wire. An index constructor points into
/// the module's type table and is resolved against it.
#[derive(Copy, Clone, Debug, PartialEq, Eq, Structural)]
pub enum WireHeapType {
    /// The bottom heap type.
    Bot,
    /// Any function.
    Func,
    /// Opaque host data.
    Extern,
    /// A type-table entry: a typed function or continuation.
    TypedFunc(u32),
}

/// A function type as it appears on the wire.
#[derive(Clone, Debug)]
pub struct WireFuncType {
    /// Parameter types, in order.
    pub params: Vec<WireValType>,
    /// Result types, in order.
    pub results: Vec<WireValType>,
}

/// An entry of the module's type table.
#[derive(Clone, Debug)]
pub enum WireType {
    /// A function type.
    Func(WireFuncType),
    /// A continuation type over the function type at the given index.
    Cont(u32),
}

/// A global's type as it appears on the wire.
#[derive(Copy, Clone, Debug)]
pub struct WireGlobalType {
    /// The type of the stored value.
    pub content_type: WireValType,
    /// Whether the value may change at runtime.
    pub mutable: bool,
}

/// A table's type as it appears on the wire.
#[derive(Copy, Clone, Debug)]
pub struct WireTableType {
    /// The element type.
    pub element_type: WireRefType,
    /// The minimum number of elements.
    pub initial: u32,
    /// The maximum number of elements, if bounded.
    pub maximum: Option<u32>,
}

/// A linear memory's type as it appears on the wire.
#[derive(Copy, Clone, Debug)]
pub struct WireMemoryType {
    /// The minimum number of pages.
    pub initial: u64,
    /// The maximum number of pages, if bounded.
    pub maximum: Option<u64>,
    /// Whether the memory may be shared between threads.
    pub shared: bool,
    /// Whether this is a 64-bit memory.
    pub memory64: bool,
}

/// The kind of a tag.
#[derive(Copy, Clone, Debug, PartialEq, Eq, Structural)]
pub enum WireTagKind {
    /// An exception tag.
    Exception,
}

/// A tag's type as it appears on the wire.
#[derive(Copy, Clone, Debug)]
pub struct WireTagType {
    /// The kind of the tag.
    pub kind: WireTagKind,
    /// The index of the tag's function type.
    pub func_type_idx: u32,
}

/// Which optional Wasm features a decoder should accept.
#[derive(Copy, Clone, Debug, PartialEq, Eq, Structural)]
pub struct WasmFeatures {
    /// Functions with more than one result.
    pub multi_value: bool,
    /// 128-bit SIMD values and operators.
    pub simd: bool,
    /// `funcref` and `externref` values.
    pub reference_types: bool,
    /// Bulk memory and table operators.
    pub bulk_memory: bool,
}

/// A block's type as it appears on an operator.
#[derive(Copy, Clone, Debug)]
pub enum WireBlockType {
    /// No parameters and no results.
    Empty,
    /// No parameters and a single result.
    Type(WireValType),
    /// The function type at the given type-table index.
    FuncType(u32),
}

} // verus!
