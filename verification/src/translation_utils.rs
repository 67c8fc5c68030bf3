//! Helper functions and structures for the translation: wire types to IR
//! types, block-type resolution, block construction and small immediates.

use vstd::prelude::*;
use crate::environ::reference_type_of;
use crate::ir::{Block, Function, Ieee32, Ieee64, IrType, TargetFrontendConfig, ValueLabel};
use crate::types::{heap_type_of_wire, WasmError, WasmResult};
use crate::wire::{WireBlockType, WireFuncType, WireHeapType, WireValType};

verus! {

/// WebAssembly table element. Can be a function or a scalar type.
#[derive(Copy, Clone, Debug, PartialEq, Eq, Structural)]
pub enum TableElementType {
    /// A scalar type.
    Val(IrType),
    /// A function.
    Func,
}

/// What translating a wire value type to an IR type yields: numeric types
/// map to their IR namesakes, references to the target's reference
/// representation, and a reference whose constructor cannot be converted
/// is rejected.
pub open spec fn ir_type_of_wire(ty: WireValType, pointer: IrType) -> WasmResult<IrType> {
    match ty {
        WireValType::I32 => Ok(IrType::I32),
        WireValType::I64 => Ok(IrType::I64),
        WireValType::F32 => Ok(IrType::F32),
        WireValType::F64 => Ok(IrType::F64),
        WireValType::V128 => Ok(IrType::I8X16),
        WireValType::Ref(rt) => match heap_type_of_wire(rt.heap_type) {
            Ok(_) => Ok(reference_type_of(pointer)),
            Err(e) => Err(e),
        },
    }
}

/// Helper function translating wire value types to IR types when
/// possible.
pub fn type_to_type(ty: WireValType, config: &TargetFrontendConfig) -> (r: WasmResult<IrType>)
    requires
        config.ok(),
    ensures
        r == ir_type_of_wire(ty, config.pointer_type_spec()),
{
    match ty {
        WireValType::I32 => Ok(IrType::I32),
        WireValType::I64 => Ok(IrType::I64),
        WireValType::F32 => Ok(IrType::F32),
        WireValType::F64 => Ok(IrType::F64),
        WireValType::V128 => Ok(IrType::I8X16),
        WireValType::Ref(rt) => match rt.heap_type {
            WireHeapType::TypedFunc(_) => Err(WasmError::InvalidType),
            _ => {
                let p = config.pointer_type();
                if p == IrType::I32 {
                    Ok(IrType::R32)
                } else {
                    Ok(IrType::R64)
                }
            },
        },
    }
}

/// Helper function translating wire table element types to IR types when
/// possible, or `None` for tables whose heap type is not `extern`: such
/// tables are treated as function tables.
pub fn tabletype_to_type(ty: WireValType, config: &TargetFrontendConfig) -> (r: WasmResult<
    Option<IrType>,
>)
    requires
        config.ok(),
    ensures
        r == (match ty {
            WireValType::I32 => Ok::<Option<IrType>, WasmError>(Some(IrType::I32)),
            WireValType::I64 => Ok::<Option<IrType>, WasmError>(Some(IrType::I64)),
            WireValType::F32 => Ok::<Option<IrType>, WasmError>(Some(IrType::F32)),
            WireValType::F64 => Ok::<Option<IrType>, WasmError>(Some(IrType::F64)),
            WireValType::V128 => Ok::<Option<IrType>, WasmError>(Some(IrType::I8X16)),
            WireValType::Ref(rt) => if rt.heap_type == WireHeapType::Extern {
                Ok::<Option<IrType>, WasmError>(
                    Some(reference_type_of(config.pointer_type_spec())),
                )
            } else {
                Ok::<Option<IrType>, WasmError>(None)
            },
        }),
{
    match ty {
        WireValType::I32 => Ok(Some(IrType::I32)),
        WireValType::I64 => Ok(Some(IrType::I64)),
        WireValType::F32 => Ok(Some(IrType::F32)),
        WireValType::F64 => Ok(Some(IrType::F64)),
        WireValType::V128 => Ok(Some(IrType::I8X16)),
        WireValType::Ref(rt) => match rt.heap_type {
            WireHeapType::Extern => {
                let p = config.pointer_type();
                if p == IrType::I32 {
                    Ok(Some(IrType::R32))
                } else {
                    Ok(Some(IrType::R64))
                }
            },
            _ => Ok(None),
        },
    }
}

/// Get the parameter and result types for the given Wasm block type. An
/// empty block type has neither; a single value type is one result; a
/// function-type index resolves against the module's function types.
pub fn blocktype_params_results(types: &Vec<WireFuncType>, ty: WireBlockType) -> (r: WasmResult<
    (Vec<WireValType>, Vec<WireValType>),
>)
    requires
        ty matches WireBlockType::FuncType(i) ==> i < types@.len(),
    ensures
        match ty {
            WireBlockType::Empty => r matches Ok(pr) && pr.0@ == Seq::<WireValType>::empty()
                && pr.1@ == Seq::<WireValType>::empty(),
            WireBlockType::Type(t) => r matches Ok(pr) && pr.0@ == Seq::<WireValType>::empty()
                && pr.1@ == seq![t],
            WireBlockType::FuncType(i) => r matches Ok(pr) && pr.0@ == types@[i as int].params@
                && pr.1@ == types@[i as int].results@,
        },
{
    match ty {
        WireBlockType::Empty => Ok((Vec::new(), Vec::new())),
        WireBlockType::Type(t) => {
            let mut results: Vec<WireValType> = Vec::new();
            results.push(t);
            proof {
                assert(results@ =~= seq![t]);
            }
            Ok((Vec::new(), results))
        },
        WireBlockType::FuncType(i) => {
            let entry = &types[i as usize];
            Ok((copy_val_types(&entry.params), copy_val_types(&entry.results)))
        },
    }
}

/// A fresh copy of a list of wire value types.
fn copy_val_types(s: &Vec<WireValType>) -> (r: Vec<WireValType>)
    ensures
        r@ == s@,
{
    let mut out: Vec<WireValType> = Vec::new();
    let mut i: usize = 0;
    while i < s.len()
        invariant
            0 <= i <= s@.len(),
            out@ == s@.take(i as int),
        decreases s@.len() - i,
    {
        out.push(s[i]);
        i = i + 1;
    }
    proof {
        assert(s@.take(s@.len() as int) =~= s@);
    }
    out
}

/// The IR type a block parameter of the given wire type gets. An index
/// constructor is treated like a plain function reference: typed
/// functions and continuations share the untyped representation here.
pub open spec fn block_param_type(ty: WireValType, pointer: IrType) -> IrType {
    match ty {
        WireValType::I32 => IrType::I32,
        WireValType::I64 => IrType::I64,
        WireValType::F32 => IrType::F32,
        WireValType::F64 => IrType::F64,
        WireValType::V128 => IrType::I8X16,
        WireValType::Ref(_) => reference_type_of(pointer),
    }
}

/// Create a block with the given Wasm parameters.
pub fn block_with_params(
    func: &mut Function,
    params: &Vec<WireValType>,
    config: &TargetFrontendConfig,
) -> (r: WasmResult<Block>)
    requires
        config.ok(),
        old(func).num_values + params@.len() <= usize::MAX,
    ensures
        final(func).blocks@.len() == old(func).blocks@.len() + 1,
        r == Ok::<Block, WasmError>(Block(old(func).blocks@.len() as usize)),
        ({
            let blk = final(func).blocks@.last()@;
            blk.len() == params@.len() && forall|i: int|
                0 <= i < params@.len() ==> blk[i] == block_param_type(
                    params@[i],
                    config.pointer_type_spec(),
                )
        }),
        forall|i: int|
            0 <= i < old(func).blocks@.len() ==> final(func).blocks@[i] == old(func).blocks@[i],
        final(func).num_values == old(func).num_values + params@.len(),
        final(func).name == old(func).name,
        final(func).signature == old(func).signature,
        final(func).global_values@ == old(func).global_values@,
        final(func).tables@ == old(func).tables@,
        final(func).sig_refs@ == old(func).sig_refs@,
        final(func).ext_funcs@ == old(func).ext_funcs@,
        final(func).insts@ == old(func).insts@,
{
    let block = func.create_block();
    let nblocks = func.blocks.len();
    proof {
        assert(block.0 == old(func).blocks@.len());
    }
    let p = config.pointer_type();
    let rt = if p == IrType::I32 {
        IrType::R32
    } else {
        IrType::R64
    };
    let mut i: usize = 0;
    while i < params.len()
        invariant
            config.ok(),
            rt == reference_type_of(config.pointer_type_spec()),
            0 <= i <= params@.len(),
            old(func).num_values + params@.len() <= usize::MAX,
            block.0 == old(func).blocks@.len(),
            func.blocks@.len() == old(func).blocks@.len() + 1,
            block.0 == func.blocks@.len() - 1,
            func.blocks@.last()@.len() == i,
            forall|j: int|
                0 <= j < i ==> func.blocks@.last()@[j] == block_param_type(
                    params@[j],
                    config.pointer_type_spec(),
                ),
            forall|j: int|
                0 <= j < old(func).blocks@.len() ==> func.blocks@[j] == old(
                    func,
                ).blocks@[j],
            func.num_values == old(func).num_values + i,
            func.name == old(func).name,
            func.signature == old(func).signature,
            func.global_values@ == old(func).global_values@,
            func.tables@ == old(func).tables@,
            func.sig_refs@ == old(func).sig_refs@,
            func.ext_funcs@ == old(func).ext_funcs@,
            func.insts@ == old(func).insts@,
        decreases params@.len() - i,
    {
        let ty = match params[i] {
            WireValType::I32 => IrType::I32,
            WireValType::I64 => IrType::I64,
            WireValType::F32 => IrType::F32,
            WireValType::F64 => IrType::F64,
            WireValType::V128 => IrType::I8X16,
            WireValType::Ref(_) => rt,
        };
        func.append_block_param(block, ty);
        i = i + 1;
    }
    Ok(block)
}

/// Turn a wire-format `f32` immediate into an IR one: the bits move
/// unchanged.
pub fn f32_translation(bits: u32) -> (r: Ieee32)
    ensures
        r.bits == bits,
{
    Ieee32 { bits }
}

/// Turn a wire-format `f64` immediate into an IR one: the bits move
/// unchanged.
pub fn f64_translation(bits: u64) -> (r: Ieee64)
    ensures
        r.bits == bits,
{
    Ieee64 { bits }
}

/// The special value label under which the `VMContext` parameter is
/// tracked for debugging.
pub fn get_vmctx_value_label() -> (r: ValueLabel)
    ensures
        r.0 == 0xFFFF_FFFE,
{
    ValueLabel(0xFFFF_FFFE)
}

} // verus!
