//! A small model of the intermediate representation that the translation
//! environment lowers Wasm operators into: types, signatures, handles into
//! a function's tables, and the instructions the lowering emits.

use vstd::prelude::*;

verus! {

/// An IR value type.
#[derive(Copy, Clone, Debug, PartialEq, Eq, Structural)]
pub enum IrType {
    /// 32-bit integer.
    I32,
    /// 64-bit integer.
    I64,
    /// 32-bit float.
    F32,
    /// 64-bit float.
    F64,
    /// 128-bit vector of sixteen bytes.
    I8X16,
    /// 32-bit reference.
    R32,
    /// 64-bit reference.
    R64,
}

/// The calling convention of a signature.
#[derive(Copy, Clone, Debug, PartialEq, Eq, Structural)]
pub enum CallConv {
    /// The host's fastest internal convention.
    Fast,
}

/// What role a parameter plays in a signature.
#[derive(Copy, Clone, Debug, PartialEq, Eq, Structural)]
pub enum ArgumentPurpose {
    /// An ordinary value parameter.
    Normal,
    /// The `VMContext` special parameter threaded through every compiled
    /// function.
    VMContext,
}

/// One parameter or result slot of a signature.
#[derive(Copy, Clone, Debug, PartialEq, Eq, Structural)]
pub struct AbiParam {
    /// The slot's value type.
    pub value_type: IrType,
    /// The slot's role.
    pub purpose: ArgumentPurpose,
}

impl AbiParam {
    /// An ordinary value parameter.
    pub fn new(value_type: IrType) -> (r: AbiParam)
        ensures
            r == (AbiParam { value_type, purpose: ArgumentPurpose::Normal }),
    {
        AbiParam { value_type, purpose: ArgumentPurpose::Normal }
    }

    /// A parameter with a special role.
    pub fn special(value_type: IrType, purpose: ArgumentPurpose) -> (r: AbiParam)
        ensures
            r == (AbiParam { value_type, purpose }),
    {
        AbiParam { value_type, purpose }
    }
}

/// A function signature: parameters and results under one calling
/// convention.
#[derive(Clone, Debug, PartialEq, Eq)]
pub struct Signature {
    /// The parameter slots, in order.
    pub params: Vec<AbiParam>,
    /// The result slots, in order.
    pub results: Vec<AbiParam>,
    /// The calling convention.
    pub call_conv: CallConv,
}

impl Signature {
    /// An empty signature under the given convention.
    pub fn new(call_conv: CallConv) -> (r: Signature)
        ensures
            r.params@ == Seq::<AbiParam>::empty(),
            r.results@ == Seq::<AbiParam>::empty(),
            r.call_conv == call_conv,
    {
        Signature { params: Vec::new(), results: Vec::new(), call_conv }
    }
}

/// An SSA value handle.
#[derive(Copy, Clone, Debug, PartialEq, Eq, Structural)]
pub struct Value(pub usize);

/// An instruction handle.
#[derive(Copy, Clone, Debug, PartialEq, Eq, Structural)]
pub struct Inst(pub usize);

/// A handle on a signature imported into a function.
#[derive(Copy, Clone, Debug, PartialEq, Eq, Structural)]
pub struct SigRef(pub usize);

/// A handle on an external function imported into a function.
#[derive(Copy, Clone, Debug, PartialEq, Eq, Structural)]
pub struct FuncRef(pub usize);

/// A handle on a global value of a function.
#[derive(Copy, Clone, Debug, PartialEq, Eq, Structural)]
pub struct GlobalValue(pub usize);

/// A handle on a table of a function.
#[derive(Copy, Clone, Debug, PartialEq, Eq, Structural)]
pub struct Table(pub usize);

/// A handle on a block of a function under construction.
#[derive(Copy, Clone, Debug, PartialEq, Eq, Structural)]
pub struct Block(pub usize);

/// A handle on a heap of the translation environment.
#[derive(Copy, Clone, Debug, PartialEq, Eq, Structural)]
pub struct Heap(pub usize);

/// How a global value is obtained.
#[derive(Copy, Clone, Debug, PartialEq, Eq, Structural)]
pub enum GlobalValueData {
    /// The address of the `VMContext` special parameter.
    VMContext,
    /// A load through another global value.
    Load {
        /// The global value the address comes from.
        base: GlobalValue,
        /// The byte offset added to the base.
        offset: i32,
        /// The type of the loaded value.
        global_type: IrType,
        /// Whether the loaded value never changes under this function.
        readonly: bool,
    },
}

/// How a heap's bound is known.
#[derive(Copy, Clone, Debug, PartialEq, Eq, Structural)]
pub enum HeapStyle {
    /// The bound is fixed at compile time.
    Static {
        /// The fixed bound, in bytes.
        bound: u64,
    },
    /// The bound is loaded at run time.
    Dynamic,
}

/// A heap descriptor: where a linear memory lives and how accesses to it
/// are checked. Any access at `addr + offset` with
/// `offset + access_size <= offset_guard_size` needs no explicit bound
/// check.
#[derive(Copy, Clone, Debug, PartialEq, Eq, Structural)]
pub struct HeapData {
    /// The global value holding the heap's base address.
    pub base: GlobalValue,
    /// The heap's guaranteed minimum size, in bytes.
    pub min_size: u64,
    /// The size of the guard region past the bound, in bytes.
    pub offset_guard_size: u64,
    /// How the bound is known.
    pub style: HeapStyle,
    /// The type Wasm index operands have for this heap.
    pub index_type: IrType,
}

/// A table descriptor: base and bound loaded from the context, with the
/// byte stride between consecutive elements.
#[derive(Copy, Clone, Debug, PartialEq, Eq, Structural)]
pub struct TableData {
    /// The global value holding the table's base address.
    pub base_gv: GlobalValue,
    /// The table's guaranteed minimum element count.
    pub min_size: u64,
    /// The global value holding the table's current element count.
    pub bound_gv: GlobalValue,
    /// The byte stride between consecutive elements.
    pub element_size: u64,
    /// The type Wasm index operands have for this table.
    pub index_type: IrType,
}

/// A 32-bit float immediate, carried as bits.
#[derive(Copy, Clone, Debug, PartialEq, Eq, Structural)]
pub struct Ieee32 {
    /// The raw bits.
    pub bits: u32,
}

/// A 64-bit float immediate, carried as bits.
#[derive(Copy, Clone, Debug, PartialEq, Eq, Structural)]
pub struct Ieee64 {
    /// The raw bits.
    pub bits: u64,
}

/// A label attached to a value for debug tracking.
#[derive(Copy, Clone, Debug, PartialEq, Eq, Structural)]
pub struct ValueLabel(pub u32);

/// The name under which a function knows an external function.
#[derive(Copy, Clone, Debug, PartialEq, Eq, Structural)]
pub enum ExternalName {
    /// A user-namespaced name.
    User {
        /// The namespace the index lives in.
        namespace: u32,
        /// The index within the namespace.
        index: u32,
    },
}

/// What a function records about an external function it calls.
#[derive(Copy, Clone, Debug, PartialEq, Eq, Structural)]
pub struct ExtFuncData {
    /// The external function's name.
    pub name: ExternalName,
    /// The signature it is called under.
    pub signature: SigRef,
    /// Whether it is linked into the same artifact.
    pub colocated: bool,
}

/// The name of a function under construction.
#[derive(Copy, Clone, Debug, PartialEq, Eq, Structural)]
pub struct UserFuncName {
    /// The namespace the index lives in.
    pub namespace: u32,
    /// The index within the namespace.
    pub index: u32,
}

impl UserFuncName {
    /// A user name from its two halves.
    pub fn user(namespace: u32, index: u32) -> (r: UserFuncName)
        ensures
            r == (UserFuncName { namespace, index }),
    {
        UserFuncName { namespace, index }
    }
}

/// One emitted instruction.
#[derive(Clone, Debug, PartialEq, Eq)]
pub enum InstData {
    /// Zero-extend a value to a wider integer type.
    UExtend {
        /// The type extended to.
        to: IrType,
        /// The value extended.
        arg: Value,
    },
    /// Multiply a value by an immediate.
    IMulImm {
        /// The multiplicand.
        arg: Value,
        /// The immediate factor.
        imm: i64,
    },
    /// Add two values.
    IAdd {
        /// The left operand.
        x: Value,
        /// The right operand.
        y: Value,
    },
    /// Materialize the address of a global value.
    GlobalAddr {
        /// The global value whose address is taken.
        gv: GlobalValue,
    },
    /// Load a value from memory.
    Load {
        /// The type of the loaded value.
        ty: IrType,
        /// Whether the memory flags mark the access trusted: aligned and
        /// known in-bounds, so no trap check is emitted.
        flags_trusted: bool,
        /// The address operand.
        addr: Value,
        /// The byte offset added to the address.
        offset: i32,
    },
    /// Call a known function.
    Call {
        /// The called function.
        func_ref: FuncRef,
        /// The arguments, in order.
        args: Vec<Value>,
    },
    /// Call through a function pointer.
    CallIndirect {
        /// The signature the callee is called under.
        sig_ref: SigRef,
        /// The function pointer called.
        callee: Value,
        /// The arguments, in order.
        args: Vec<Value>,
    },
    /// Materialize an integer constant.
    IConst {
        /// The constant's type.
        ty: IrType,
        /// The constant's value.
        imm: i64,
    },
    /// Materialize a null reference.
    Null {
        /// The reference type.
        ty: IrType,
    },
}

/// A function under construction: its signature, the entities imported
/// into it, the blocks opened in it, and the instructions emitted into it.
/// SSA values are numbered from zero: first the signature's parameters in
/// order, then block parameters and instruction results in the order they
/// are created.
#[derive(Clone, Debug)]
pub struct Function {
    /// The function's name.
    pub name: UserFuncName,
    /// The function's signature.
    pub signature: Signature,
    /// The global values created in the function.
    pub global_values: Vec<GlobalValueData>,
    /// The tables created in the function.
    pub tables: Vec<TableData>,
    /// The signatures imported into the function.
    pub sig_refs: Vec<Signature>,
    /// The external functions imported into the function.
    pub ext_funcs: Vec<ExtFuncData>,
    /// The blocks opened in the function, each with its parameter types.
    pub blocks: Vec<Vec<IrType>>,
    /// The instructions emitted into the function.
    pub insts: Vec<InstData>,
    /// How many SSA values exist.
    pub num_values: usize,
}

/// The position of the first parameter with the given role at or after
/// position `i`, if any.
pub open spec fn first_param_with(s: Seq<AbiParam>, purpose: ArgumentPurpose, i: int) -> Option<
    int,
>
    decreases s.len() - i,
{
    if i < 0 || s.len() <= i {
        None
    } else if s[i].purpose == purpose {
        Some(i)
    } else {
        first_param_with(s, purpose, i + 1)
    }
}

impl Function {
    /// Everything of a function except its instruction stream and its
    /// value counter; the operator lowerings leave all of this alone.
    pub open spec fn decl_state(self) -> (
        UserFuncName,
        Signature,
        Seq<GlobalValueData>,
        Seq<TableData>,
        Seq<Signature>,
        Seq<ExtFuncData>,
        Seq<Vec<IrType>>,
    ) {
        (
            self.name,
            self.signature,
            self.global_values@,
            self.tables@,
            self.sig_refs@,
            self.ext_funcs@,
            self.blocks@,
        )
    }

    /// Start a function with a name and a signature; the parameters
    /// become the first SSA values.
    pub fn with_name_signature(name: UserFuncName, signature: Signature) -> (r: Function)
        ensures
            r.name == name,
            r.signature == signature,
            r.global_values@ == Seq::<GlobalValueData>::empty(),
            r.tables@ == Seq::<TableData>::empty(),
            r.sig_refs@ == Seq::<Signature>::empty(),
            r.ext_funcs@ == Seq::<ExtFuncData>::empty(),
            r.blocks@ == Seq::<Vec<IrType>>::empty(),
            r.insts@ == Seq::<InstData>::empty(),
            r.num_values == signature.params@.len(),
    {
        let num_values = signature.params.len();
        Function {
            name,
            signature,
            global_values: Vec::new(),
            tables: Vec::new(),
            sig_refs: Vec::new(),
            ext_funcs: Vec::new(),
            blocks: Vec::new(),
            insts: Vec::new(),
            num_values,
        }
    }

    /// The value of the first parameter with the given special role, if
    /// the signature has one: parameters are the first SSA values, in
    /// order.
    pub fn special_param(&self, purpose: ArgumentPurpose) -> (r: Option<Value>)
        ensures
            r == (match first_param_with(self.signature.params@, purpose, 0) {
                Some(i) => Some(Value(i as usize)),
                None => None::<Value>,
            }),
    {
        let mut i: usize = 0;
        while i < self.signature.params.len()
            invariant
                0 <= i <= self.signature.params@.len(),
                first_param_with(self.signature.params@, purpose, 0) == first_param_with(
                    self.signature.params@,
                    purpose,
                    i as int,
                ),
            decreases self.signature.params@.len() - i,
        {
            if self.signature.params[i].purpose == purpose {
                return Some(Value(i));
            }
            i = i + 1;
        }
        None
    }

    /// Create a global value and return its handle.
    pub fn create_global_value(&mut self, data: GlobalValueData) -> (r: GlobalValue)
        ensures
            final(self).global_values@ == old(self).global_values@.push(data),
            r == GlobalValue(old(self).global_values@.len() as usize),
            final(self).name == old(self).name,
            final(self).signature == old(self).signature,
            final(self).tables@ == old(self).tables@,
            final(self).sig_refs@ == old(self).sig_refs@,
            final(self).ext_funcs@ == old(self).ext_funcs@,
            final(self).blocks@ == old(self).blocks@,
            final(self).insts@ == old(self).insts@,
            final(self).num_values == old(self).num_values,
    {
        let r = GlobalValue(self.global_values.len());
        self.global_values.push(data);
        r
    }

    /// Create a table and return its handle.
    pub fn create_table(&mut self, data: TableData) -> (r: Table)
        ensures
            final(self).tables@ == old(self).tables@.push(data),
            r == Table(old(self).tables@.len() as usize),
            final(self).name == old(self).name,
            final(self).signature == old(self).signature,
            final(self).global_values@ == old(self).global_values@,
            final(self).sig_refs@ == old(self).sig_refs@,
            final(self).ext_funcs@ == old(self).ext_funcs@,
            final(self).blocks@ == old(self).blocks@,
            final(self).insts@ == old(self).insts@,
            final(self).num_values == old(self).num_values,
    {
        let r = Table(self.tables.len());
        self.tables.push(data);
        r
    }

    /// Import a signature into the function and return its handle.
    pub fn import_signature(&mut self, signature: Signature) -> (r: SigRef)
        ensures
            final(self).sig_refs@ == old(self).sig_refs@.push(signature),
            r == SigRef(old(self).sig_refs@.len() as usize),
            final(self).name == old(self).name,
            final(self).signature == old(self).signature,
            final(self).global_values@ == old(self).global_values@,
            final(self).tables@ == old(self).tables@,
            final(self).ext_funcs@ == old(self).ext_funcs@,
            final(self).blocks@ == old(self).blocks@,
            final(self).insts@ == old(self).insts@,
            final(self).num_values == old(self).num_values,
    {
        let r = SigRef(self.sig_refs.len());
        self.sig_refs.push(signature);
        r
    }

    /// Import an external function into the function and return its
    /// handle.
    pub fn import_function(&mut self, data: ExtFuncData) -> (r: FuncRef)
        ensures
            final(self).ext_funcs@ == old(self).ext_funcs@.push(data),
            r == FuncRef(old(self).ext_funcs@.len() as usize),
            final(self).name == old(self).name,
            final(self).signature == old(self).signature,
            final(self).global_values@ == old(self).global_values@,
            final(self).tables@ == old(self).tables@,
            final(self).sig_refs@ == old(self).sig_refs@,
            final(self).blocks@ == old(self).blocks@,
            final(self).insts@ == old(self).insts@,
            final(self).num_values == old(self).num_values,
    {
        let r = FuncRef(self.ext_funcs.len());
        self.ext_funcs.push(data);
        r
    }

    /// Open a new block with no parameters and return its handle.
    pub fn create_block(&mut self) -> (r: Block)
        ensures
            final(self).blocks@.len() == old(self).blocks@.len() + 1,
            final(self).blocks@[old(self).blocks@.len() as int]@ == Seq::<IrType>::empty(),
            forall|i: int|
                0 <= i < old(self).blocks@.len() ==> final(self).blocks@[i] == old(self).blocks@[i],
            r == Block(old(self).blocks@.len() as usize),
            final(self).name == old(self).name,
            final(self).signature == old(self).signature,
            final(self).global_values@ == old(self).global_values@,
            final(self).tables@ == old(self).tables@,
            final(self).sig_refs@ == old(self).sig_refs@,
            final(self).ext_funcs@ == old(self).ext_funcs@,
            final(self).insts@ == old(self).insts@,
            final(self).num_values == old(self).num_values,
    {
        let r = Block(self.blocks.len());
        self.blocks.push(Vec::new());
        r
    }

    /// Append one parameter of the given type to the block under
    /// construction — the most recently created one — and return its
    /// value.
    pub fn append_block_param(&mut self, block: Block, ty: IrType) -> (r: Value)
        requires
            old(self).blocks@.len() > 0,
            block.0 == old(self).blocks@.len() - 1,
            old(self).num_values < usize::MAX,
        ensures
            final(self).blocks@.len() == old(self).blocks@.len(),
            final(self).blocks@[block.0 as int]@ == old(self).blocks@[block.0 as int]@.push(ty),
            forall|i: int|
                0 <= i < block.0 ==> final(self).blocks@[i] == old(self).blocks@[i],
            r == Value(old(self).num_values),
            final(self).num_values == old(self).num_values + 1,
            final(self).name == old(self).name,
            final(self).signature == old(self).signature,
            final(self).global_values@ == old(self).global_values@,
            final(self).tables@ == old(self).tables@,
            final(self).sig_refs@ == old(self).sig_refs@,
            final(self).ext_funcs@ == old(self).ext_funcs@,
            final(self).insts@ == old(self).insts@,
    {
        let r = Value(self.num_values);
        let mut entry = match self.blocks.pop() {
            Some(e) => e,
            None => Vec::new(),
        };
        entry.push(ty);
        self.blocks.push(entry);
        self.num_values = self.num_values + 1;
        r
    }

    /// Emit one instruction that produces a result, returning the
    /// instruction's handle and its result value.
    pub fn emit(&mut self, data: InstData) -> (r: (Inst, Value))
        requires
            old(self).num_values < usize::MAX,
        ensures
            final(self).insts@ == old(self).insts@.push(data),
            r.0 == Inst(old(self).insts@.len() as usize),
            r.1 == Value(old(self).num_values),
            final(self).num_values == old(self).num_values + 1,
            final(self).name == old(self).name,
            final(self).signature == old(self).signature,
            final(self).global_values@ == old(self).global_values@,
            final(self).tables@ == old(self).tables@,
            final(self).sig_refs@ == old(self).sig_refs@,
            final(self).ext_funcs@ == old(self).ext_funcs@,
            final(self).blocks@ == old(self).blocks@,
    {
        let inst = Inst(self.insts.len());
        let val = Value(self.num_values);
        self.insts.push(data);
        self.num_values = self.num_values + 1;
        (inst, val)
    }

    /// Emit one instruction that produces no result.
    pub fn emit_void(&mut self, data: InstData) -> (r: Inst)
        ensures
            final(self).insts@ == old(self).insts@.push(data),
            r == Inst(old(self).insts@.len() as usize),
            final(self).num_values == old(self).num_values,
            final(self).name == old(self).name,
            final(self).signature == old(self).signature,
            final(self).global_values@ == old(self).global_values@,
            final(self).tables@ == old(self).tables@,
            final(self).sig_refs@ == old(self).sig_refs@,
            final(self).ext_funcs@ == old(self).ext_funcs@,
            final(self).blocks@ == old(self).blocks@,
    {
        let inst = Inst(self.insts.len());
        self.insts.push(data);
        inst
    }
}

/// The target description a frontend needs: pointer width and calling
/// convention, with the Spectre-mitigation switch for heap accesses.
#[derive(Copy, Clone, Debug, PartialEq, Eq, Structural)]
pub struct TargetFrontendConfig {
    /// The default calling convention.
    pub default_call_conv: CallConv,
    /// The size of a pointer, in bytes.
    pub pointer_bytes: u8,
}

impl TargetFrontendConfig {
    /// The pointer widths this model covers.
    pub open spec fn ok(self) -> bool {
        self.pointer_bytes == 4 || self.pointer_bytes == 8
    }

    /// The integer type as wide as a pointer on this target, as
    /// specifications see it.
    pub open spec fn pointer_type_spec(self) -> IrType {
        if self.pointer_bytes == 4 {
            IrType::I32
        } else {
            IrType::I64
        }
    }

    /// The integer type as wide as a pointer on this target.
    pub fn pointer_type(&self) -> (r: IrType)
        requires
            self.ok(),
        ensures
            r == self.pointer_type_spec(),
    {
        if self.pointer_bytes == 4 {
            IrType::I32
        } else {
            IrType::I64
        }
    }
}

} // verus!
