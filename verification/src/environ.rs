//! A test-grade module and function environment for translation: it
//! accumulates the declarations a decoder makes, hands lowered IR back to
//! the operator translator, and can check a prescribed reachability trace.

use vstd::prelude::*;
use crate::ir;
use crate::ir::{first_param_with, AbiParam, ArgumentPurpose, CallConv, ExtFuncData, ExternalName, Function,
    GlobalValue, GlobalValueData, HeapData, HeapStyle, InstData, IrType, Signature, SigRef,
    TableData, TargetFrontendConfig, UserFuncName, Value};
use crate::types::{DataIndex, ElemIndex, FuncIndex, Global, GlobalIndex, GlobalInit, Memory,
    MemoryIndex, Table, TableIndex, TypeIndex, WasmError, WasmFuncType, WasmResult, WasmType};
use crate::wire::WasmFeatures;

verus! {

/// A collection of names under which a given entity is exported.
#[derive(Clone, Debug)]
pub struct Exportable<T> {
    /// A wasm entity.
    pub entity: T,
    /// Names under which the entity is exported.
    pub export_names: Vec<String>,
}

impl<T> Exportable<T> {
    /// An entity that is not exported yet.
    pub fn new(entity: T) -> (r: Self)
        ensures
            r.entity == entity,
            r.export_names@ == Seq::<String>::empty(),
    {
        Self { entity, export_names: Vec::new() }
    }
}

/// The main state belonging to a `DummyEnvironment`: everything the
/// declarations accumulate. For each entity kind the imported entities
/// are declared first, so the first `imported_*` entries of each list are
/// the imports and the rest are local.
#[derive(Clone, Debug)]
pub struct DummyModuleInfo {
    /// Target description relevant to frontends producing IR.
    pub config: TargetFrontendConfig,
    /// Signatures as provided by `declare_type_func`.
    pub signatures: Vec<Signature>,
    /// Module and field names of imported functions.
    pub imported_funcs: Vec<(String, String)>,
    /// Module and field names of imported globals.
    pub imported_globals: Vec<(String, String)>,
    /// Module and field names of imported tables.
    pub imported_tables: Vec<(String, String)>,
    /// Module and field names of imported memories.
    pub imported_memories: Vec<(String, String)>,
    /// Functions, imported and local.
    pub functions: Vec<Exportable<TypeIndex>>,
    /// Function bodies.
    pub function_bodies: Vec<Function>,
    /// Tables as provided by `declare_table`.
    pub tables: Vec<Exportable<Table>>,
    /// Memories as provided by `declare_memory`.
    pub memories: Vec<Exportable<Memory>>,
    /// Globals as provided by `declare_global`.
    pub globals: Vec<Exportable<Global>>,
    /// The start function.
    pub start_func: Option<FuncIndex>,
}

impl DummyModuleInfo {
    /// Creates a new `DummyModuleInfo` instance.
    pub fn new(config: TargetFrontendConfig) -> (r: Self)
        ensures
            r.config == config,
            r.signatures@ == Seq::<Signature>::empty(),
            r.imported_funcs@ == Seq::<(String, String)>::empty(),
            r.imported_globals@ == Seq::<(String, String)>::empty(),
            r.imported_tables@ == Seq::<(String, String)>::empty(),
            r.imported_memories@ == Seq::<(String, String)>::empty(),
            r.functions@ == Seq::<Exportable<TypeIndex>>::empty(),
            r.function_bodies@ == Seq::<Function>::empty(),
            r.tables@ == Seq::<Exportable<Table>>::empty(),
            r.memories@ == Seq::<Exportable<Memory>>::empty(),
            r.globals@ == Seq::<Exportable<Global>>::empty(),
            r.start_func is None,
            r.imports_first(),
    {
        Self {
            config,
            signatures: Vec::new(),
            imported_funcs: Vec::new(),
            imported_globals: Vec::new(),
            imported_tables: Vec::new(),
            imported_memories: Vec::new(),
            functions: Vec::new(),
            function_bodies: Vec::new(),
            tables: Vec::new(),
            memories: Vec::new(),
            globals: Vec::new(),
            start_func: None,
        }
    }

    /// For each entity kind, no more imports than entities: the imports
    /// occupy a prefix of each entity list. Every declaration operation
    /// preserves this.
    pub open spec fn imports_first(self) -> bool {
        &&& self.imported_funcs@.len() <= self.functions@.len()
        &&& self.imported_tables@.len() <= self.tables@.len()
        &&& self.imported_memories@.len() <= self.memories@.len()
        &&& self.imported_globals@.len() <= self.globals@.len()
    }

    /// Whether the function at this index is an import: the imports are
    /// the prefix of the function list.
    pub open spec fn func_is_imported(self, i: int) -> bool {
        i < self.imported_funcs@.len()
    }

    /// Whether the table at this index is an import.
    pub open spec fn table_is_imported(self, i: int) -> bool {
        i < self.imported_tables@.len()
    }

    /// Whether the memory at this index is an import.
    pub open spec fn memory_is_imported(self, i: int) -> bool {
        i < self.imported_memories@.len()
    }

    /// Whether the global at this index is an import.
    pub open spec fn global_is_imported(self, i: int) -> bool {
        i < self.imported_globals@.len()
    }
}

/// **Imports first.** After every sequence of declarations, for each
/// entity kind the imported entries are exactly those with index below
/// the count of imports: every such index holds a declared entity, and
/// every entity at or past the count of imports is local. The declaration
/// operations keep this partition: an import declaration demands that no
/// local entity of its kind exists yet and lands at the import count,
/// and a local declaration lands at or past it.
pub proof fn lemma_imports_first(info: DummyModuleInfo)
    requires
        info.imports_first(),
    ensures
        forall|i: int|
            0 <= i < info.imported_funcs@.len() ==> #[trigger] info.func_is_imported(i) && i
                < info.functions@.len(),
        forall|i: int|
            info.imported_funcs@.len() <= i < info.functions@.len()
                ==> !#[trigger] info.func_is_imported(i),
        forall|i: int|
            0 <= i < info.imported_tables@.len() ==> #[trigger] info.table_is_imported(i) && i
                < info.tables@.len(),
        forall|i: int|
            info.imported_tables@.len() <= i < info.tables@.len()
                ==> !#[trigger] info.table_is_imported(i),
        forall|i: int|
            0 <= i < info.imported_memories@.len() ==> #[trigger] info.memory_is_imported(i) && i
                < info.memories@.len(),
        forall|i: int|
            info.imported_memories@.len() <= i < info.memories@.len()
                ==> !#[trigger] info.memory_is_imported(i),
        forall|i: int|
            0 <= i < info.imported_globals@.len() ==> #[trigger] info.global_is_imported(i) && i
                < info.globals@.len(),
        forall|i: int|
            info.imported_globals@.len() <= i < info.globals@.len()
                ==> !#[trigger] info.global_is_imported(i),
{
}

/// State for tracking and checking reachability at each operator, used
/// when testing translation: a prescribed list of before/after
/// reachability bits and how far the checks have walked it.
#[derive(Debug)]
pub struct ExpectedReachability {
    /// Prescribed before- and after-reachability, one pair per operator.
    pub reachability: Vec<(bool, bool)>,
    /// How many before-bits have been checked.
    pub before_idx: usize,
    /// How many after-bits have been checked.
    pub after_idx: usize,
}

impl ExpectedReachability {
    /// Check the next before-bit: it must exist and match. A failed check
    /// leaves the state unchanged and reports the mismatch.
    pub fn check_before(&mut self, reachable: bool) -> (r: bool)
        ensures
            if old(self).before_idx < old(self).reachability@.len() && old(self).reachability@[old(self).before_idx as int].0 == reachable {
                r && final(self).before_idx == old(self).before_idx + 1 && final(self).after_idx
                    == old(self).after_idx && final(self).reachability@ == old(self).reachability@
            } else {
                !r && *final(self) == *old(self)
            },
    {
        if self.before_idx < self.reachability.len() && self.reachability[self.before_idx].0
            == reachable {
            self.before_idx = self.before_idx + 1;
            true
        } else {
            false
        }
    }

    /// Check the next after-bit: it must exist and match. A failed check
    /// leaves the state unchanged and reports the mismatch.
    pub fn check_after(&mut self, reachable: bool) -> (r: bool)
        ensures
            if old(self).after_idx < old(self).reachability@.len() && old(self).reachability@[old(self).after_idx as int].1 == reachable {
                r && final(self).after_idx == old(self).after_idx + 1 && final(self).before_idx
                    == old(self).before_idx && final(self).reachability@ == old(self).reachability@
            } else {
                !r && *final(self) == *old(self)
            },
    {
        if self.after_idx < self.reachability.len() && self.reachability[self.after_idx].1
            == reachable {
            self.after_idx = self.after_idx + 1;
            true
        } else {
            false
        }
    }

    /// Check that the whole prescribed trace has been walked.
    pub fn check_end(&self) -> (r: bool)
        ensures
            r == (self.before_idx == self.reachability@.len() && self.after_idx
                == self.reachability@.len()),
    {
        self.before_idx == self.reachability.len() && self.after_idx == self.reachability.len()
    }

    /// **Reachability trace.** Walk an observed trace against the
    /// prescribed one, one operator at a time, and accept exactly when
    /// the two are identical — which also makes the prescribed trace's
    /// length the operator count.
    pub fn check_trace(&mut self, observed: &Vec<(bool, bool)>) -> (r: bool)
        requires
            old(self).before_idx == 0,
            old(self).after_idx == 0,
        ensures
            r <==> observed@ == old(self).reachability@,
    {
        let ghost prescribed = self.reachability@;
        let mut i: usize = 0;
        while i < observed.len()
            invariant
                0 <= i <= observed@.len(),
                prescribed == old(self).reachability@,
                self.reachability@ == prescribed,
                self.before_idx == i,
                self.after_idx == i,
                i <= prescribed.len(),
                forall|j: int| 0 <= j < i ==> observed@[j] == prescribed[j],
            decreases observed@.len() - i,
        {
            let (before, after) = observed[i];
            proof {
                assert(before == observed@[i as int].0);
                assert(after == observed@[i as int].1);
            }
            if !self.check_before(before) {
                proof {
                    if observed@ == prescribed {
                        assert(observed@.len() == prescribed.len());
                        assert(observed@[i as int] == prescribed[i as int]);
                        assert(false);
                    }
                }
                return false;
            }
            if !self.check_after(after) {
                proof {
                    if observed@ == prescribed {
                        assert(observed@.len() == prescribed.len());
                        assert(observed@[i as int] == prescribed[i as int]);
                        assert(false);
                    }
                }
                return false;
            }
            i = i + 1;
        }
        let complete = self.check_end();
        proof {
            if complete {
                assert(observed@ =~= prescribed);
            } else {
                assert(observed@.len() < prescribed.len());
            }
        }
        complete
    }
}

impl Clone for ExpectedReachability {
    /// An identical copy of the prescribed trace and its progress.
    fn clone(&self) -> (r: Self)
        ensures
            r.reachability@ == self.reachability@,
            r.before_idx == self.before_idx,
            r.after_idx == self.after_idx,
    {
        let mut reachability: Vec<(bool, bool)> = Vec::new();
        let mut i: usize = 0;
        while i < self.reachability.len()
            invariant
                0 <= i <= self.reachability@.len(),
                reachability@ == self.reachability@.take(i as int),
            decreases self.reachability@.len() - i,
        {
            reachability.push(self.reachability[i]);
            i = i + 1;
        }
        proof {
            assert(self.reachability@.take(self.reachability@.len() as int)
                =~= self.reachability@);
        }
        ExpectedReachability { reachability, before_idx: self.before_idx, after_idx: self.after_idx }
    }
}

/// The IR type a Wasm value of the given type is represented with, given
/// the representation of references.
pub open spec fn ir_type_of_wasm(ty: WasmType, reference_type: IrType) -> IrType {
    match ty {
        WasmType::I32 => IrType::I32,
        WasmType::I64 => IrType::I64,
        WasmType::F32 => IrType::F32,
        WasmType::F64 => IrType::F64,
        WasmType::V128 => IrType::I8X16,
        WasmType::Ref(_) => reference_type,
    }
}

/// The reference representation that goes with a pointer type.
pub open spec fn reference_type_of(pointer: IrType) -> IrType {
    if pointer == IrType::I32 {
        IrType::R32
    } else {
        IrType::R64
    }
}

/// A signature amended with the `VMContext` special parameter after the
/// standard wasm parameters.
fn augment_with_vmctx(base: &Signature, pointer: IrType) -> (r: Signature)
    ensures
        r.params@ == base.params@.push(
            AbiParam { value_type: pointer, purpose: ArgumentPurpose::VMContext },
        ),
        r.results@ == base.results@,
        r.call_conv == base.call_conv,
{
    let mut params: Vec<AbiParam> = Vec::new();
    let mut i: usize = 0;
    while i < base.params.len()
        invariant
            0 <= i <= base.params@.len(),
            params@ == base.params@.take(i as int),
        decreases base.params@.len() - i,
    {
        params.push(base.params[i]);
        i = i + 1;
    }
    let mut results: Vec<AbiParam> = Vec::new();
    let mut j: usize = 0;
    while j < base.results.len()
        invariant
            0 <= j <= base.results@.len(),
            results@ == base.results@.take(j as int),
        decreases base.results@.len() - j,
    {
        results.push(base.results[j]);
        j = j + 1;
    }
    proof {
        assert(base.params@.take(base.params@.len() as int) =~= base.params@);
        assert(base.results@.take(base.results@.len() as int) =~= base.results@);
    }
    params.push(AbiParam::special(pointer, ArgumentPurpose::VMContext));
    Signature { params, results, call_conv: base.call_conv }
}

/// This module environment is a naive one: it records declarations and
/// builds function shells, and is meant for translation testing rather
/// than execution.
#[derive(Debug)]
pub struct DummyEnvironment {
    /// Module information.
    pub info: DummyModuleInfo,
    /// Wasm bytecode size for each defined function.
    pub func_bytecode_sizes: Vec<usize>,
    /// Instructs to collect debug data during translation.
    pub debug_info: bool,
    /// Name of the module from the wasm file.
    pub module_name: Option<String>,
    /// Function names, in declaration order; a later entry for the same
    /// index supersedes an earlier one.
    pub function_names: Vec<(FuncIndex, String)>,
    /// Expected reachability data (before/after for each operator) to
    /// check during translation; used for testing.
    pub expected_reachability: Option<ExpectedReachability>,
}

/// The name most recently declared for a function index, if any.
pub open spec fn name_lookup(s: Seq<(FuncIndex, String)>, idx: FuncIndex) -> Option<Seq<char>>
    decreases s.len(),
{
    if s.len() == 0 {
        None
    } else if s.last().0 == idx {
        Some(s.last().1@)
    } else {
        name_lookup(s.drop_last(), idx)
    }
}

impl DummyEnvironment {
    /// Creates a new `DummyEnvironment` instance.
    pub fn new(config: TargetFrontendConfig, debug_info: bool) -> (r: Self)
        ensures
            r.info.config == config,
            r.info.signatures@ == Seq::<Signature>::empty(),
            r.info.imported_funcs@ == Seq::<(String, String)>::empty(),
            r.info.imported_globals@ == Seq::<(String, String)>::empty(),
            r.info.imported_tables@ == Seq::<(String, String)>::empty(),
            r.info.imported_memories@ == Seq::<(String, String)>::empty(),
            r.info.functions@ == Seq::<Exportable<TypeIndex>>::empty(),
            r.info.function_bodies@ == Seq::<Function>::empty(),
            r.info.tables@ == Seq::<Exportable<Table>>::empty(),
            r.info.memories@ == Seq::<Exportable<Memory>>::empty(),
            r.info.globals@ == Seq::<Exportable<Global>>::empty(),
            r.info.start_func is None,
            r.func_bytecode_sizes@ == Seq::<usize>::empty(),
            r.debug_info == debug_info,
            r.module_name is None,
            r.function_names@ == Seq::<(FuncIndex, String)>::empty(),
            r.expected_reachability is None,
            r.info.imports_first(),
    {
        Self {
            info: DummyModuleInfo::new(config),
            func_bytecode_sizes: Vec::new(),
            debug_info,
            module_name: None,
            function_names: Vec::new(),
            expected_reachability: None,
        }
    }

    /// Return a `DummyFuncEnvironment` for translating functions within
    /// this environment.
    pub fn func_env(&self) -> (r: DummyFuncEnvironment<'_>)
        ensures
            r.mod_info == &self.info,
            match self.expected_reachability {
                None => r.expected_reachability is None,
                Some(er) => r.expected_reachability matches Some(e2) && e2.reachability@
                    == er.reachability@ && e2.before_idx == er.before_idx && e2.after_idx
                    == er.after_idx,
            },
            r.heaps@ == Seq::<HeapData>::empty(),
    {
        let expected_reachability = match &self.expected_reachability {
            Some(er) => Some(er.clone()),
            None => None,
        };
        DummyFuncEnvironment::new(&self.info, expected_reachability)
    }

    /// Get the type for the function at the given index.
    pub fn get_func_type(&self, func_index: FuncIndex) -> (r: TypeIndex)
        requires
            func_index.0 < self.info.functions@.len(),
        ensures
            r == self.info.functions@[func_index.0 as int].entity,
    {
        self.info.functions[func_index.0 as usize].entity
    }

    /// Return the number of imported functions within this environment.
    pub fn get_num_func_imports(&self) -> (r: usize)
        ensures
            r == self.info.imported_funcs@.len(),
    {
        self.info.imported_funcs.len()
    }

    /// Return the name of the function, if a name for the function with
    /// the corresponding index was declared.
    pub fn get_func_name(&self, func_index: FuncIndex) -> (r: Option<&String>)
        ensures
            match r {
                Some(n) => name_lookup(self.function_names@, func_index) == Some(n@),
                None => name_lookup(self.function_names@, func_index) is None,
            },
    {
        proof {
            assert(self.function_names@.take(self.function_names@.len() as int)
                =~= self.function_names@);
        }
        let mut i: usize = self.function_names.len();
        while i > 0
            invariant
                0 <= i <= self.function_names@.len(),
                name_lookup(self.function_names@, func_index) == name_lookup(
                    self.function_names@.take(i as int),
                    func_index,
                ),
            decreases i,
        {
            proof {
                assert(self.function_names@.take(i as int).last()
                    == self.function_names@[i - 1]);
                assert(self.function_names@.take(i as int).drop_last()
                    =~= self.function_names@.take(i - 1));
            }
            i = i - 1;
            if self.function_names[i].0 == func_index {
                return Some(&self.function_names[i].1);
            }
        }
        None
    }

    /// Test reachability bits before and after every opcode during
    /// translation. This is applied to every function in the module, so
    /// it is mostly useful for test modules with one function.
    pub fn test_expected_reachability(&mut self, reachability: Vec<(bool, bool)>)
        ensures
            final(self).expected_reachability matches Some(er) && er.reachability@
                == reachability@ && er.before_idx == 0 && er.after_idx == 0,
            final(self).info == old(self).info,
            final(self).func_bytecode_sizes@ == old(self).func_bytecode_sizes@,
            final(self).debug_info == old(self).debug_info,
            final(self).module_name == old(self).module_name,
            final(self).function_names@ == old(self).function_names@,
    {
        self.expected_reachability = Some(
            ExpectedReachability { reachability, before_idx: 0, after_idx: 0 },
        );
    }
}

impl DummyModuleInfo {
    /// The signature list, for framing which declarations leave it alone.
    pub open spec fn sig_part(self) -> Seq<Signature> {
        self.signatures@
    }

    /// The function entities and their import names.
    pub open spec fn func_part(self) -> (Seq<(String, String)>, Seq<Exportable<TypeIndex>>) {
        (self.imported_funcs@, self.functions@)
    }

    /// The table entities and their import names.
    pub open spec fn table_part(self) -> (Seq<(String, String)>, Seq<Exportable<Table>>) {
        (self.imported_tables@, self.tables@)
    }

    /// The memory entities and their import names.
    pub open spec fn memory_part(self) -> (Seq<(String, String)>, Seq<Exportable<Memory>>) {
        (self.imported_memories@, self.memories@)
    }

    /// The global entities and their import names.
    pub open spec fn global_part(self) -> (Seq<(String, String)>, Seq<Exportable<Global>>) {
        (self.imported_globals@, self.globals@)
    }

    /// The function bodies.
    pub open spec fn body_part(self) -> Seq<Function> {
        self.function_bodies@
    }

    /// The target configuration and the start function.
    pub open spec fn misc_part(self) -> (TargetFrontendConfig, Option<FuncIndex>) {
        (self.config, self.start_func)
    }
}

impl DummyEnvironment {
    /// Everything of the environment outside its module info, for framing
    /// which operations leave it alone.
    pub open spec fn env_part(self) -> (
        Seq<usize>,
        bool,
        Option<String>,
        Seq<(FuncIndex, String)>,
        Option<ExpectedReachability>,
    ) {
        (
            self.func_bytecode_sizes@,
            self.debug_info,
            self.module_name@,
            self.function_names@,
            self.expected_reachability,
        )
    }

    /// Declare a function signature: convert each Wasm type to its IR
    /// representation and record the signature under the next type index.
    pub fn declare_type_func(&mut self, wasm: &WasmFuncType) -> (r: WasmResult<()>)
        requires
            old(self).info.config.ok(),
        ensures
            r == Ok::<(), WasmError>(()),
            final(self).info.signatures@.len() == old(self).info.signatures@.len() + 1,
            ({
                let sig = final(self).info.signatures@.last();
                let rt = reference_type_of(old(self).info.config.pointer_type_spec());
                &&& sig.params@.len() == wasm.params@.len()
                &&& forall|i: int|
                    0 <= i < wasm.params@.len() ==> sig.params@[i] == (AbiParam {
                        value_type: ir_type_of_wasm(wasm.params@[i], rt),
                        purpose: ArgumentPurpose::Normal,
                    })
                &&& sig.results@.len() == wasm.results@.len()
                &&& forall|i: int|
                    0 <= i < wasm.results@.len() ==> sig.results@[i] == (AbiParam {
                        value_type: ir_type_of_wasm(wasm.results@[i], rt),
                        purpose: ArgumentPurpose::Normal,
                    })
                &&& sig.call_conv == CallConv::Fast
            }),
            forall|i: int|
                0 <= i < old(self).info.signatures@.len() ==> final(self).info.signatures@[i]
                    == old(self).info.signatures@[i],
            final(self).info.func_part() == old(self).info.func_part(),
            final(self).info.table_part() == old(self).info.table_part(),
            final(self).info.memory_part() == old(self).info.memory_part(),
            final(self).info.global_part() == old(self).info.global_part(),
            final(self).info.body_part() == old(self).info.body_part(),
            final(self).info.misc_part() == old(self).info.misc_part(),
            final(self).env_part() == old(self).env_part(),
    {
        let rt = reference_type(self.info.config.pointer_type());
        let mut sig = Signature::new(CallConv::Fast);
        let mut i: usize = 0;
        while i < wasm.params().len()
            invariant
                old(self).info.config.ok(),
                rt == reference_type_of(old(self).info.config.pointer_type_spec()),
                self == old(self),
                0 <= i <= wasm.params@.len(),
                sig.params@.len() == i,
                forall|j: int|
                    0 <= j < i ==> sig.params@[j] == (AbiParam {
                        value_type: ir_type_of_wasm(wasm.params@[j], rt),
                        purpose: ArgumentPurpose::Normal,
                    }),
                sig.results@.len() == 0,
                sig.call_conv == CallConv::Fast,
            decreases wasm.params@.len() - i,
        {
            let ty = cvt_wasm_type(wasm.params()[i], rt);
            sig.params.push(AbiParam::new(ty));
            i = i + 1;
        }
        let mut j: usize = 0;
        while j < wasm.results().len()
            invariant
                old(self).info.config.ok(),
                rt == reference_type_of(old(self).info.config.pointer_type_spec()),
                self == old(self),
                0 <= j <= wasm.results@.len(),
                sig.params@.len() == wasm.params@.len(),
                forall|k: int|
                    0 <= k < wasm.params@.len() ==> sig.params@[k] == (AbiParam {
                        value_type: ir_type_of_wasm(wasm.params@[k], rt),
                        purpose: ArgumentPurpose::Normal,
                    }),
                sig.results@.len() == j,
                forall|k: int|
                    0 <= k < j ==> sig.results@[k] == (AbiParam {
                        value_type: ir_type_of_wasm(wasm.results@[k], rt),
                        purpose: ArgumentPurpose::Normal,
                    }),
                sig.call_conv == CallConv::Fast,
            decreases wasm.results@.len() - j,
        {
            let ty = cvt_wasm_type(wasm.results()[j], rt);
            sig.results.push(AbiParam::new(ty));
            j = j + 1;
        }
        self.info.signatures.push(sig);
        Ok(())
    }

    /// Declare an imported function: it must come before any local
    /// function, takes the next function index, and records the
    /// `(module, field)` pair it is imported from.
    pub fn declare_func_import(&mut self, index: TypeIndex, module: String, field: String) -> (r:
        WasmResult<()>)
        requires
            old(self).info.functions@.len() == old(self).info.imported_funcs@.len(),
        ensures
            r == Ok::<(), WasmError>(()),
            final(self).info.functions@.len() == old(self).info.functions@.len() + 1,
            final(self).info.functions@.last().entity == index,
            final(self).info.functions@.last().export_names@ == Seq::<String>::empty(),
            forall|i: int|
                0 <= i < old(self).info.functions@.len() ==> final(self).info.functions@[i]
                    == old(self).info.functions@[i],
            final(self).info.imported_funcs@ == old(self).info.imported_funcs@.push(
                (module, field),
            ),
            old(self).info.imports_first() ==> final(self).info.imports_first(),
            final(self).info.sig_part() == old(self).info.sig_part(),
            final(self).info.table_part() == old(self).info.table_part(),
            final(self).info.memory_part() == old(self).info.memory_part(),
            final(self).info.global_part() == old(self).info.global_part(),
            final(self).info.body_part() == old(self).info.body_part(),
            final(self).info.misc_part() == old(self).info.misc_part(),
            final(self).env_part() == old(self).env_part(),
    {
        self.info.functions.push(Exportable::new(index));
        self.info.imported_funcs.push((module, field));
        Ok(())
    }

    /// Declare a local function of the given type: it takes the next
    /// function index, at or past the import count.
    pub fn declare_func_type(&mut self, index: TypeIndex) -> (r: WasmResult<()>)
        ensures
            r == Ok::<(), WasmError>(()),
            final(self).info.functions@.len() == old(self).info.functions@.len() + 1,
            final(self).info.functions@.last().entity == index,
            final(self).info.functions@.last().export_names@ == Seq::<String>::empty(),
            forall|i: int|
                0 <= i < old(self).info.functions@.len() ==> final(self).info.functions@[i]
                    == old(self).info.functions@[i],
            final(self).info.imported_funcs@ == old(self).info.imported_funcs@,
            old(self).info.imports_first() ==> final(self).info.imports_first(),
            final(self).info.sig_part() == old(self).info.sig_part(),
            final(self).info.table_part() == old(self).info.table_part(),
            final(self).info.memory_part() == old(self).info.memory_part(),
            final(self).info.global_part() == old(self).info.global_part(),
            final(self).info.body_part() == old(self).info.body_part(),
            final(self).info.misc_part() == old(self).info.misc_part(),
            final(self).env_part() == old(self).env_part(),
    {
        self.info.functions.push(Exportable::new(index));
        Ok(())
    }

    /// Declare a local global.
    pub fn declare_global(&mut self, global: Global, _init: GlobalInit) -> (r: WasmResult<()>)
        ensures
            r == Ok::<(), WasmError>(()),
            final(self).info.globals@.len() == old(self).info.globals@.len() + 1,
            final(self).info.globals@.last().entity == global,
            final(self).info.globals@.last().export_names@ == Seq::<String>::empty(),
            forall|i: int|
                0 <= i < old(self).info.globals@.len() ==> final(self).info.globals@[i] == old(self).info.globals@[i],
            final(self).info.imported_globals@ == old(self).info.imported_globals@,
            old(self).info.imports_first() ==> final(self).info.imports_first(),
            final(self).info.sig_part() == old(self).info.sig_part(),
            final(self).info.func_part() == old(self).info.func_part(),
            final(self).info.table_part() == old(self).info.table_part(),
            final(self).info.memory_part() == old(self).info.memory_part(),
            final(self).info.body_part() == old(self).info.body_part(),
            final(self).info.misc_part() == old(self).info.misc_part(),
            final(self).env_part() == old(self).env_part(),
    {
        self.info.globals.push(Exportable::new(global));
        Ok(())
    }

    /// Declare an imported global: it must come before any local global.
    pub fn declare_global_import(&mut self, global: Global, module: String, field: String) -> (r:
        WasmResult<()>)
        requires
            old(self).info.globals@.len() == old(self).info.imported_globals@.len(),
        ensures
            r == Ok::<(), WasmError>(()),
            final(self).info.globals@.len() == old(self).info.globals@.len() + 1,
            final(self).info.globals@.last().entity == global,
            final(self).info.globals@.last().export_names@ == Seq::<String>::empty(),
            forall|i: int|
                0 <= i < old(self).info.globals@.len() ==> final(self).info.globals@[i] == old(self).info.globals@[i],
            final(self).info.imported_globals@ == old(self).info.imported_globals@.push(
                (module, field),
            ),
            old(self).info.imports_first() ==> final(self).info.imports_first(),
            final(self).info.sig_part() == old(self).info.sig_part(),
            final(self).info.func_part() == old(self).info.func_part(),
            final(self).info.table_part() == old(self).info.table_part(),
            final(self).info.memory_part() == old(self).info.memory_part(),
            final(self).info.body_part() == old(self).info.body_part(),
            final(self).info.misc_part() == old(self).info.misc_part(),
            final(self).env_part() == old(self).env_part(),
    {
        self.info.globals.push(Exportable::new(global));
        self.info.imported_globals.push((module, field));
        Ok(())
    }

    /// Declare a local table.
    pub fn declare_table(&mut self, table: Table) -> (r: WasmResult<()>)
        ensures
            r == Ok::<(), WasmError>(()),
            final(self).info.tables@.len() == old(self).info.tables@.len() + 1,
            final(self).info.tables@.last().entity == table,
            final(self).info.tables@.last().export_names@ == Seq::<String>::empty(),
            forall|i: int|
                0 <= i < old(self).info.tables@.len() ==> final(self).info.tables@[i] == old(self).info.tables@[i],
            final(self).info.imported_tables@ == old(self).info.imported_tables@,
            old(self).info.imports_first() ==> final(self).info.imports_first(),
            final(self).info.sig_part() == old(self).info.sig_part(),
            final(self).info.func_part() == old(self).info.func_part(),
            final(self).info.memory_part() == old(self).info.memory_part(),
            final(self).info.global_part() == old(self).info.global_part(),
            final(self).info.body_part() == old(self).info.body_part(),
            final(self).info.misc_part() == old(self).info.misc_part(),
            final(self).env_part() == old(self).env_part(),
    {
        self.info.tables.push(Exportable::new(table));
        Ok(())
    }

    /// Declare an imported table: it must come before any local table.
    pub fn declare_table_import(&mut self, table: Table, module: String, field: String) -> (r:
        WasmResult<()>)
        requires
            old(self).info.tables@.len() == old(self).info.imported_tables@.len(),
        ensures
            r == Ok::<(), WasmError>(()),
            final(self).info.tables@.len() == old(self).info.tables@.len() + 1,
            final(self).info.tables@.last().entity == table,
            final(self).info.tables@.last().export_names@ == Seq::<String>::empty(),
            forall|i: int|
                0 <= i < old(self).info.tables@.len() ==> final(self).info.tables@[i] == old(self).info.tables@[i],
            final(self).info.imported_tables@ == old(self).info.imported_tables@.push(
                (module, field),
            ),
            old(self).info.imports_first() ==> final(self).info.imports_first(),
            final(self).info.sig_part() == old(self).info.sig_part(),
            final(self).info.func_part() == old(self).info.func_part(),
            final(self).info.memory_part() == old(self).info.memory_part(),
            final(self).info.global_part() == old(self).info.global_part(),
            final(self).info.body_part() == old(self).info.body_part(),
            final(self).info.misc_part() == old(self).info.misc_part(),
            final(self).env_part() == old(self).env_part(),
    {
        self.info.tables.push(Exportable::new(table));
        self.info.imported_tables.push((module, field));
        Ok(())
    }

    /// Declare a local memory.
    pub fn declare_memory(&mut self, memory: Memory) -> (r: WasmResult<()>)
        ensures
            r == Ok::<(), WasmError>(()),
            final(self).info.memories@.len() == old(self).info.memories@.len() + 1,
            final(self).info.memories@.last().entity == memory,
            final(self).info.memories@.last().export_names@ == Seq::<String>::empty(),
            forall|i: int|
                0 <= i < old(self).info.memories@.len() ==> final(self).info.memories@[i] == old(self).info.memories@[i],
            final(self).info.imported_memories@ == old(self).info.imported_memories@,
            old(self).info.imports_first() ==> final(self).info.imports_first(),
            final(self).info.sig_part() == old(self).info.sig_part(),
            final(self).info.func_part() == old(self).info.func_part(),
            final(self).info.table_part() == old(self).info.table_part(),
            final(self).info.global_part() == old(self).info.global_part(),
            final(self).info.body_part() == old(self).info.body_part(),
            final(self).info.misc_part() == old(self).info.misc_part(),
            final(self).env_part() == old(self).env_part(),
    {
        self.info.memories.push(Exportable::new(memory));
        Ok(())
    }

    /// Declare an imported memory: it must come before any local memory.
    pub fn declare_memory_import(&mut self, memory: Memory, module: String, field: String) -> (r:
        WasmResult<()>)
        requires
            old(self).info.memories@.len() == old(self).info.imported_memories@.len(),
        ensures
            r == Ok::<(), WasmError>(()),
            final(self).info.memories@.len() == old(self).info.memories@.len() + 1,
            final(self).info.memories@.last().entity == memory,
            final(self).info.memories@.last().export_names@ == Seq::<String>::empty(),
            forall|i: int|
                0 <= i < old(self).info.memories@.len() ==> final(self).info.memories@[i] == old(self).info.memories@[i],
            final(self).info.imported_memories@ == old(self).info.imported_memories@.push(
                (module, field),
            ),
            old(self).info.imports_first() ==> final(self).info.imports_first(),
            final(self).info.sig_part() == old(self).info.sig_part(),
            final(self).info.func_part() == old(self).info.func_part(),
            final(self).info.table_part() == old(self).info.table_part(),
            final(self).info.global_part() == old(self).info.global_part(),
            final(self).info.body_part() == old(self).info.body_part(),
            final(self).info.misc_part() == old(self).info.misc_part(),
            final(self).env_part() == old(self).env_part(),
    {
        self.info.memories.push(Exportable::new(memory));
        self.info.imported_memories.push((module, field));
        Ok(())
    }

    /// Record active table elements; this environment keeps nothing of
    /// them.
    pub fn declare_table_elements(
        &mut self,
        _table_index: TableIndex,
        _base: Option<GlobalIndex>,
        _offset: u32,
        _elements: &Vec<FuncIndex>,
    ) -> (r: WasmResult<()>)
        ensures
            r == Ok::<(), WasmError>(()),
            final(self).info == old(self).info,
            final(self).env_part() == old(self).env_part(),
    {
        Ok(())
    }

    /// Record a passive element segment; this environment keeps nothing
    /// of it.
    pub fn declare_passive_element(
        &mut self,
        _elem_index: ElemIndex,
        _segments: &Vec<FuncIndex>,
    ) -> (r: WasmResult<()>)
        ensures
            r == Ok::<(), WasmError>(()),
            final(self).info == old(self).info,
            final(self).env_part() == old(self).env_part(),
    {
        Ok(())
    }

    /// Record a passive data segment; this environment keeps nothing of
    /// it.
    pub fn declare_passive_data(&mut self, _data_index: DataIndex, _data: &Vec<u8>) -> (r:
        WasmResult<()>)
        ensures
            r == Ok::<(), WasmError>(()),
            final(self).info == old(self).info,
            final(self).env_part() == old(self).env_part(),
    {
        Ok(())
    }

    /// Record an active data initialization; this environment keeps
    /// nothing of it.
    pub fn declare_data_initialization(
        &mut self,
        _memory_index: MemoryIndex,
        _base: Option<GlobalIndex>,
        _offset: u64,
        _data: &Vec<u8>,
    ) -> (r: WasmResult<()>)
        ensures
            r == Ok::<(), WasmError>(()),
            final(self).info == old(self).info,
            final(self).env_part() == old(self).env_part(),
    {
        Ok(())
    }

    /// Append an export name to a declared function, or report an
    /// out-of-bounds index.
    pub fn declare_func_export(&mut self, func_index: FuncIndex, name: String) -> (r: WasmResult<
        (),
    >)
        ensures
            if func_index.0 < old(self).info.functions@.len() {
                let i = func_index.0 as int;
                &&& r == Ok::<(), WasmError>(())
                &&& final(self).info.functions@.len() == old(self).info.functions@.len()
                &&& final(self).info.functions@[i].entity == old(self).info.functions@[i].entity
                &&& final(self).info.functions@[i].export_names@ == old(self).info.functions@[i].export_names@.push(name)
                &&& forall|j: int|
                    0 <= j < old(self).info.functions@.len() && j != i ==> final(self).info.functions@[j] == old(self).info.functions@[j]
            } else {
                r == Err::<(), WasmError>(WasmError::IndexOutOfBounds) && final(self).info == old(self).info
            },
            final(self).info.imported_funcs@ == old(self).info.imported_funcs@,
            old(self).info.imports_first() ==> final(self).info.imports_first(),
            final(self).info.sig_part() == old(self).info.sig_part(),
            final(self).info.table_part() == old(self).info.table_part(),
            final(self).info.memory_part() == old(self).info.memory_part(),
            final(self).info.global_part() == old(self).info.global_part(),
            final(self).info.body_part() == old(self).info.body_part(),
            final(self).info.misc_part() == old(self).info.misc_part(),
            final(self).env_part() == old(self).env_part(),
    {
        let idx = func_index.0 as usize;
        if idx >= self.info.functions.len() {
            return Err(WasmError::IndexOutOfBounds);
        }
        let mut entry = self.info.functions.remove(idx);
        entry.export_names.push(name);
        self.info.functions.insert(idx, entry);
        proof {
            assert(final(self).info.functions@ =~= old(self).info.functions@.update(
                idx as int,
                final(self).info.functions@[idx as int],
            ));
        }
        Ok(())
    }

    /// Append an export name to a declared table, or report an
    /// out-of-bounds index.
    pub fn declare_table_export(&mut self, table_index: TableIndex, name: String) -> (r:
        WasmResult<()>)
        ensures
            if table_index.0 < old(self).info.tables@.len() {
                let i = table_index.0 as int;
                &&& r == Ok::<(), WasmError>(())
                &&& final(self).info.tables@.len() == old(self).info.tables@.len()
                &&& final(self).info.tables@[i].entity == old(self).info.tables@[i].entity
                &&& final(self).info.tables@[i].export_names@ == old(self).info.tables@[i].export_names@.push(name)
                &&& forall|j: int|
                    0 <= j < old(self).info.tables@.len() && j != i ==> final(self).info.tables@[j] == old(self).info.tables@[j]
            } else {
                r == Err::<(), WasmError>(WasmError::IndexOutOfBounds) && final(self).info == old(self).info
            },
            final(self).info.imported_tables@ == old(self).info.imported_tables@,
            old(self).info.imports_first() ==> final(self).info.imports_first(),
            final(self).info.sig_part() == old(self).info.sig_part(),
            final(self).info.func_part() == old(self).info.func_part(),
            final(self).info.memory_part() == old(self).info.memory_part(),
            final(self).info.global_part() == old(self).info.global_part(),
            final(self).info.body_part() == old(self).info.body_part(),
            final(self).info.misc_part() == old(self).info.misc_part(),
            final(self).env_part() == old(self).env_part(),
    {
        let idx = table_index.0 as usize;
        if idx >= self.info.tables.len() {
            return Err(WasmError::IndexOutOfBounds);
        }
        let mut entry = self.info.tables.remove(idx);
        entry.export_names.push(name);
        self.info.tables.insert(idx, entry);
        proof {
            assert(final(self).info.tables@ =~= old(self).info.tables@.update(
                idx as int,
                final(self).info.tables@[idx as int],
            ));
        }
        Ok(())
    }

    /// Append an export name to a declared memory, or report an
    /// out-of-bounds index.
    pub fn declare_memory_export(&mut self, memory_index: MemoryIndex, name: String) -> (r:
        WasmResult<()>)
        ensures
            if memory_index.0 < old(self).info.memories@.len() {
                let i = memory_index.0 as int;
                &&& r == Ok::<(), WasmError>(())
                &&& final(self).info.memories@.len() == old(self).info.memories@.len()
                &&& final(self).info.memories@[i].entity == old(self).info.memories@[i].entity
                &&& final(self).info.memories@[i].export_names@ == old(self).info.memories@[i].export_names@.push(name)
                &&& forall|j: int|
                    0 <= j < old(self).info.memories@.len() && j != i ==> final(self).info.memories@[j] == old(self).info.memories@[j]
            } else {
                r == Err::<(), WasmError>(WasmError::IndexOutOfBounds) && final(self).info == old(self).info
            },
            final(self).info.imported_memories@ == old(self).info.imported_memories@,
            old(self).info.imports_first() ==> final(self).info.imports_first(),
            final(self).info.sig_part() == old(self).info.sig_part(),
            final(self).info.func_part() == old(self).info.func_part(),
            final(self).info.table_part() == old(self).info.table_part(),
            final(self).info.global_part() == old(self).info.global_part(),
            final(self).info.body_part() == old(self).info.body_part(),
            final(self).info.misc_part() == old(self).info.misc_part(),
            final(self).env_part() == old(self).env_part(),
    {
        let idx = memory_index.0 as usize;
        if idx >= self.info.memories.len() {
            return Err(WasmError::IndexOutOfBounds);
        }
        let mut entry = self.info.memories.remove(idx);
        entry.export_names.push(name);
        self.info.memories.insert(idx, entry);
        proof {
            assert(final(self).info.memories@ =~= old(self).info.memories@.update(
                idx as int,
                final(self).info.memories@[idx as int],
            ));
        }
        Ok(())
    }

    /// Append an export name to a declared global, or report an
    /// out-of-bounds index.
    pub fn declare_global_export(&mut self, global_index: GlobalIndex, name: String) -> (r:
        WasmResult<()>)
        ensures
            if global_index.0 < old(self).info.globals@.len() {
                let i = global_index.0 as int;
                &&& r == Ok::<(), WasmError>(())
                &&& final(self).info.globals@.len() == old(self).info.globals@.len()
                &&& final(self).info.globals@[i].entity == old(self).info.globals@[i].entity
                &&& final(self).info.globals@[i].export_names@ == old(self).info.globals@[i].export_names@.push(name)
                &&& forall|j: int|
                    0 <= j < old(self).info.globals@.len() && j != i ==> final(self).info.globals@[j] == old(self).info.globals@[j]
            } else {
                r == Err::<(), WasmError>(WasmError::IndexOutOfBounds) && final(self).info == old(self).info
            },
            final(self).info.imported_globals@ == old(self).info.imported_globals@,
            old(self).info.imports_first() ==> final(self).info.imports_first(),
            final(self).info.sig_part() == old(self).info.sig_part(),
            final(self).info.func_part() == old(self).info.func_part(),
            final(self).info.table_part() == old(self).info.table_part(),
            final(self).info.memory_part() == old(self).info.memory_part(),
            final(self).info.body_part() == old(self).info.body_part(),
            final(self).info.misc_part() == old(self).info.misc_part(),
            final(self).env_part() == old(self).env_part(),
    {
        let idx = global_index.0 as usize;
        if idx >= self.info.globals.len() {
            return Err(WasmError::IndexOutOfBounds);
        }
        let mut entry = self.info.globals.remove(idx);
        entry.export_names.push(name);
        self.info.globals.insert(idx, entry);
        proof {
            assert(final(self).info.globals@ =~= old(self).info.globals@.update(
                idx as int,
                final(self).info.globals@[idx as int],
            ));
        }
        Ok(())
    }

    /// Declare the start function, or report that one was already
    /// declared.
    pub fn declare_start_func(&mut self, func_index: FuncIndex) -> (r: WasmResult<()>)
        ensures
            match old(self).info.start_func {
                None => r == Ok::<(), WasmError>(()) && final(self).info.start_func == Some(
                    func_index,
                ),
                Some(_) => r == Err::<(), WasmError>(WasmError::DuplicateStart) && final(self).info.start_func == old(self).info.start_func,
            },
            final(self).info.config == old(self).info.config,
            final(self).info.sig_part() == old(self).info.sig_part(),
            final(self).info.func_part() == old(self).info.func_part(),
            final(self).info.table_part() == old(self).info.table_part(),
            final(self).info.memory_part() == old(self).info.memory_part(),
            final(self).info.global_part() == old(self).info.global_part(),
            final(self).info.body_part() == old(self).info.body_part(),
            final(self).env_part() == old(self).env_part(),
    {
        if self.info.start_func.is_some() {
            return Err(WasmError::DuplicateStart);
        }
        self.info.start_func = Some(func_index);
        Ok(())
    }

    /// Define the body of the next local function: record its bytecode
    /// size and set up its IR shell under the signature amended with the
    /// `VMContext` parameter. Driving the operator translator over the
    /// body is the translator's work, outside this environment.
    pub fn define_function_body(&mut self, body_size: usize) -> (r: WasmResult<()>)
        requires
            old(self).info.config.ok(),
            old(self).info.imported_funcs@.len() + old(self).info.function_bodies@.len() < old(self).info.functions@.len(),
            old(self).info.functions@.len() < u32::MAX,
            ({
                let fi = old(self).info.imported_funcs@.len() + old(self).info.function_bodies@.len();
                old(self).info.functions@[fi as int].entity.0 < old(self).info.signatures@.len()
            }),
        ensures
            r == Ok::<(), WasmError>(()),
            final(self).func_bytecode_sizes@ == old(self).func_bytecode_sizes@.push(body_size),
            final(self).info.function_bodies@.len() == old(self).info.function_bodies@.len() + 1,
            ({
                let fi = old(self).info.imported_funcs@.len() + old(self).info.function_bodies@.len();
                let ti = old(self).info.functions@[fi as int].entity;
                let base = old(self).info.signatures@[ti.0 as int];
                let body = final(self).info.function_bodies@.last();
                &&& body.name == (UserFuncName { namespace: 0, index: fi as u32 })
                &&& body.signature.params@ == base.params@.push(
                    AbiParam {
                        value_type: old(self).info.config.pointer_type_spec(),
                        purpose: ArgumentPurpose::VMContext,
                    },
                )
                &&& body.signature.results@ == base.results@
                &&& body.insts@ == Seq::<InstData>::empty()
            }),
            forall|i: int|
                0 <= i < old(self).info.function_bodies@.len() ==> final(self).info.function_bodies@[i] == old(self).info.function_bodies@[i],
            final(self).info.sig_part() == old(self).info.sig_part(),
            final(self).info.func_part() == old(self).info.func_part(),
            final(self).info.table_part() == old(self).info.table_part(),
            final(self).info.memory_part() == old(self).info.memory_part(),
            final(self).info.global_part() == old(self).info.global_part(),
            final(self).info.misc_part() == old(self).info.misc_part(),
            final(self).debug_info == old(self).debug_info,
            final(self).module_name@ == old(self).module_name@,
            final(self).function_names@ == old(self).function_names@,
            final(self).expected_reachability == old(self).expected_reachability,
    {
        self.func_bytecode_sizes.push(body_size);
        let func_index = self.get_num_func_imports() + self.info.function_bodies.len();
        let type_index = self.info.functions[func_index].entity;
        let sig = augment_with_vmctx(
            &self.info.signatures[type_index.0 as usize],
            self.info.config.pointer_type(),
        );
        let func = Function::with_name_signature(
            UserFuncName::user(0, func_index as u32),
            sig,
        );
        self.info.function_bodies.push(func);
        Ok(())
    }

    /// Record the module's name.
    pub fn declare_module_name(&mut self, name: String)
        ensures
            final(self).module_name == Some(name),
            final(self).info == old(self).info,
            final(self).func_bytecode_sizes@ == old(self).func_bytecode_sizes@,
            final(self).debug_info == old(self).debug_info,
            final(self).function_names@ == old(self).function_names@,
            final(self).expected_reachability == old(self).expected_reachability,
    {
        self.module_name = Some(name);
    }

    /// Record a function's name; a later declaration supersedes an
    /// earlier one.
    pub fn declare_func_name(&mut self, func_index: FuncIndex, name: String)
        ensures
            final(self).function_names@ == old(self).function_names@.push((func_index, name)),
            final(self).info == old(self).info,
            final(self).func_bytecode_sizes@ == old(self).func_bytecode_sizes@,
            final(self).debug_info == old(self).debug_info,
            final(self).module_name == old(self).module_name,
            final(self).expected_reachability == old(self).expected_reachability,
    {
        self.function_names.push((func_index, name));
    }

    /// The Wasm features this environment accepts beyond the core:
    /// multi-value, SIMD, reference types and bulk memory.
    pub fn wasm_features(&self) -> (r: WasmFeatures)
        ensures
            r.multi_value,
            r.simd,
            r.reference_types,
            r.bulk_memory,
    {
        WasmFeatures { multi_value: true, simd: true, reference_types: true, bulk_memory: true }
    }

    /// The target description this environment accumulates for.
    pub fn target_config(&self) -> (r: TargetFrontendConfig)
        ensures
            r == self.info.config,
    {
        self.info.config
    }

    /// Whether heap accesses get Spectre mitigations; this test
    /// environment emits none.
    pub fn heap_access_spectre_mitigation(&self) -> (r: bool)
        ensures
            r == false,
    {
        false
    }

    /// Resolve a type-table index to a heap type; this test environment
    /// resolves none.
    pub fn lookup_heap_type(&self, _index: TypeIndex) -> (r: WasmResult<
        crate::types::WasmHeapType,
    >)
        ensures
            r == Err::<crate::types::WasmHeapType, WasmError>(WasmError::Unsupported),
    {
        Err(WasmError::Unsupported)
    }
}

/// The IR type a Wasm value is represented with under this reference
/// representation.
fn cvt_wasm_type(ty: WasmType, reference_type: IrType) -> (r: IrType)
    ensures
        r == ir_type_of_wasm(ty, reference_type),
{
    match ty {
        WasmType::I32 => IrType::I32,
        WasmType::I64 => IrType::I64,
        WasmType::F32 => IrType::F32,
        WasmType::F64 => IrType::F64,
        WasmType::V128 => IrType::I8X16,
        WasmType::Ref(_) => reference_type,
    }
}

/// The reference representation that goes with a pointer type.
fn reference_type(pointer: IrType) -> (r: IrType)
    ensures
        r == reference_type_of(pointer),
{
    match pointer {
        IrType::I32 => IrType::R32,
        _ => IrType::R64,
    }
}

/// The `FuncEnvironment` implementation for use by the
/// `DummyEnvironment`: it lowers each operator that reaches out of the
/// function body into the small IR model.
#[derive(Debug)]
pub struct DummyFuncEnvironment<'a> {
    /// This function environment's module info.
    pub mod_info: &'a DummyModuleInfo,
    /// Expected reachability data to check; used for testing.
    pub expected_reachability: Option<ExpectedReachability>,
    /// Heaps created to implement Wasm linear memories.
    pub heaps: Vec<HeapData>,
}

/// A lowered `global.get`/`global.set` target.
#[derive(Copy, Clone, Debug, PartialEq, Eq, Structural)]
pub enum GlobalVariable {
    /// The global lives in memory at a constant offset from a base
    /// global value, as a value of the given type.
    Memory {
        /// The base the offset is added to.
        gv: GlobalValue,
        /// The byte offset from the base.
        offset: i32,
        /// The type of the stored value.
        ty: IrType,
    },
    /// The global is computed by environment-specific code.
    Custom,
}

impl<'a> DummyFuncEnvironment<'a> {
    /// Construct a new `DummyFuncEnvironment`.
    pub fn new(
        mod_info: &'a DummyModuleInfo,
        expected_reachability: Option<ExpectedReachability>,
    ) -> (r: Self)
        ensures
            r.mod_info == mod_info,
            r.expected_reachability == expected_reachability,
            r.heaps@ == Seq::<HeapData>::empty(),
    {
        Self { mod_info, expected_reachability, heaps: Vec::new() }
    }

    /// The integer type as wide as a pointer on the target.
    pub fn pointer_type(&self) -> (r: IrType)
        requires
            self.mod_info.config.ok(),
        ensures
            r == self.mod_info.config.pointer_type_spec(),
    {
        self.mod_info.config.pointer_type()
    }

    /// The representation of reference values on the target.
    pub fn reference_type(&self) -> (r: IrType)
        requires
            self.mod_info.config.ok(),
        ensures
            r == reference_type_of(self.mod_info.config.pointer_type_spec()),
    {
        reference_type(self.pointer_type())
    }

    /// The target description this environment lowers for.
    pub fn target_config(&self) -> (r: TargetFrontendConfig)
        ensures
            r == self.mod_info.config,
    {
        self.mod_info.config
    }

    /// Resolve a type-table index to a heap type; this test environment
    /// resolves none.
    pub fn lookup_heap_type(&self, _index: TypeIndex) -> (r: WasmResult<
        crate::types::WasmHeapType,
    >)
        ensures
            r == Err::<crate::types::WasmHeapType, WasmError>(WasmError::Unsupported),
    {
        Err(WasmError::Unsupported)
    }

    /// Whether heap accesses get Spectre mitigations; this test
    /// environment emits none.
    pub fn heap_access_spectre_mitigation(&self) -> (r: bool)
        ensures
            r == false,
    {
        false
    }

    /// Create a signature for `sigidx` amended with a `vmctx` argument
    /// after the standard wasm arguments.
    pub fn vmctx_sig(&self, sigidx: TypeIndex) -> (r: Signature)
        requires
            self.mod_info.config.ok(),
            sigidx.0 < self.mod_info.signatures@.len(),
        ensures
            r.params@ == self.mod_info.signatures@[sigidx.0 as int].params@.push(
                AbiParam {
                    value_type: self.mod_info.config.pointer_type_spec(),
                    purpose: ArgumentPurpose::VMContext,
                },
            ),
            r.results@ == self.mod_info.signatures@[sigidx.0 as int].results@,
            r.call_conv == self.mod_info.signatures@[sigidx.0 as int].call_conv,
    {
        augment_with_vmctx(&self.mod_info.signatures[sigidx.0 as usize], self.pointer_type())
    }

    /// The heaps created so far.
    pub fn heaps(&self) -> (r: &Vec<HeapData>)
        ensures
            r@ == self.heaps@,
    {
        &self.heaps
    }

    /// Lower a `global.get`/`global.set` target: a load or store at a
    /// fixed offset from the context, under the global's value type.
    pub fn make_global(&mut self, func: &mut Function, index: GlobalIndex) -> (r: WasmResult<
        GlobalVariable,
    >)
        requires
            index.0 < old(self).mod_info.globals@.len(),
            8 * index.0 + 8 <= i32::MAX,
        ensures
            final(func).global_values@ == old(func).global_values@.push(
                GlobalValueData::VMContext,
            ),
            r == Ok::<GlobalVariable, WasmError>(
                GlobalVariable::Memory {
                    gv: GlobalValue(old(func).global_values@.len() as usize),
                    offset: (8 * index.0 + 8) as i32,
                    ty: ir_type_of_wasm(
                        old(self).mod_info.globals@[index.0 as int].entity.wasm_ty,
                        IrType::R64,
                    ),
                },
            ),
            final(func).name == old(func).name,
            final(func).signature == old(func).signature,
            final(func).tables@ == old(func).tables@,
            final(func).sig_refs@ == old(func).sig_refs@,
            final(func).ext_funcs@ == old(func).ext_funcs@,
            final(func).blocks@ == old(func).blocks@,
            final(func).insts@ == old(func).insts@,
            final(func).num_values == old(func).num_values,
            final(self).mod_info == old(self).mod_info,
            final(self).expected_reachability == old(self).expected_reachability,
            final(self).heaps@ == old(self).heaps@,
    {
        let offset = (8 * index.as_u32() + 8) as i32;
        let vmctx = func.create_global_value(GlobalValueData::VMContext);
        let ty = cvt_wasm_type(
            self.mod_info.globals[index.0 as usize].entity.wasm_ty,
            IrType::R64,
        );
        Ok(GlobalVariable::Memory { gv: vmctx, offset, ty })
    }

    /// Lower a linear memory into a heap descriptor: a static heap whose
    /// base address is loaded from the start of the context.
    pub fn make_heap(&mut self, func: &mut Function, _index: MemoryIndex) -> (r: WasmResult<
        ir::Heap,
    >)
        requires
            old(self).mod_info.config.ok(),
        ensures
            final(func).global_values@ == old(func).global_values@.push(
                GlobalValueData::VMContext,
            ).push(
                GlobalValueData::Load {
                    base: GlobalValue(old(func).global_values@.len() as usize),
                    offset: 0,
                    global_type: old(self).mod_info.config.pointer_type_spec(),
                    readonly: true,
                },
            ),
            final(self).heaps@ == old(self).heaps@.push(
                HeapData {
                    base: GlobalValue((old(func).global_values@.len() + 1) as usize),
                    min_size: 0,
                    offset_guard_size: 0x8000_0000,
                    style: HeapStyle::Static { bound: 0x1_0000_0000 },
                    index_type: IrType::I32,
                },
            ),
            r == Ok::<ir::Heap, WasmError>(ir::Heap(old(self).heaps@.len() as usize)),
            final(func).name == old(func).name,
            final(func).signature == old(func).signature,
            final(func).tables@ == old(func).tables@,
            final(func).sig_refs@ == old(func).sig_refs@,
            final(func).ext_funcs@ == old(func).ext_funcs@,
            final(func).blocks@ == old(func).blocks@,
            final(func).insts@ == old(func).insts@,
            final(func).num_values == old(func).num_values,
            final(self).mod_info == old(self).mod_info,
            final(self).expected_reachability == old(self).expected_reachability,
    {
        let addr = func.create_global_value(GlobalValueData::VMContext);
        let gv = func.create_global_value(
            GlobalValueData::Load {
                base: addr,
                offset: 0,
                global_type: self.pointer_type(),
                readonly: true,
            },
        );
        let handle = ir::Heap(self.heaps.len());
        self.heaps.push(
            HeapData {
                base: gv,
                min_size: 0,
                offset_guard_size: 0x8000_0000,
                style: HeapStyle::Static { bound: 0x1_0000_0000 },
                index_type: IrType::I32,
            },
        );
        Ok(handle)
    }

    /// Lower a Wasm table into a table descriptor: base and bound loaded
    /// from the context, with an element stride of two pointers.
    pub fn make_table(&mut self, func: &mut Function, _index: TableIndex) -> (r: WasmResult<
        ir::Table,
    >)
        requires
            old(self).mod_info.config.ok(),
        ensures
            final(func).global_values@ == old(func).global_values@.push(
                GlobalValueData::VMContext,
            ).push(
                GlobalValueData::Load {
                    base: GlobalValue(old(func).global_values@.len() as usize),
                    offset: 0,
                    global_type: old(self).mod_info.config.pointer_type_spec(),
                    readonly: true,
                },
            ).push(
                GlobalValueData::Load {
                    base: GlobalValue(old(func).global_values@.len() as usize),
                    offset: 0,
                    global_type: IrType::I32,
                    readonly: true,
                },
            ),
            final(func).tables@ == old(func).tables@.push(
                TableData {
                    base_gv: GlobalValue((old(func).global_values@.len() + 1) as usize),
                    min_size: 0,
                    bound_gv: GlobalValue((old(func).global_values@.len() + 2) as usize),
                    element_size: (2 * old(self).mod_info.config.pointer_bytes as u64) as u64,
                    index_type: IrType::I32,
                },
            ),
            r == Ok::<ir::Table, WasmError>(ir::Table(old(func).tables@.len() as usize)),
            final(func).name == old(func).name,
            final(func).signature == old(func).signature,
            final(func).sig_refs@ == old(func).sig_refs@,
            final(func).ext_funcs@ == old(func).ext_funcs@,
            final(func).blocks@ == old(func).blocks@,
            final(func).insts@ == old(func).insts@,
            final(func).num_values == old(func).num_values,
            final(self).mod_info == old(self).mod_info,
            final(self).expected_reachability == old(self).expected_reachability,
            final(self).heaps@ == old(self).heaps@,
    {
        let vmctx = func.create_global_value(GlobalValueData::VMContext);
        let base_gv = func.create_global_value(
            GlobalValueData::Load {
                base: vmctx,
                offset: 0,
                global_type: self.pointer_type(),
                readonly: true,
            },
        );
        let bound_gv = func.create_global_value(
            GlobalValueData::Load {
                base: vmctx,
                offset: 0,
                global_type: IrType::I32,
                readonly: true,
            },
        );
        let element_size = 2 * (self.mod_info.config.pointer_bytes as u64);
        Ok(
            func.create_table(
                TableData {
                    base_gv,
                    min_size: 0,
                    bound_gv,
                    element_size,
                    index_type: IrType::I32,
                },
            ),
        )
    }

    /// Import the signature for an indirect call: the declared signature
    /// amended with the `vmctx` argument.
    pub fn make_indirect_sig(&mut self, func: &mut Function, index: TypeIndex) -> (r: WasmResult<
        SigRef,
    >)
        requires
            old(self).mod_info.config.ok(),
            index.0 < old(self).mod_info.signatures@.len(),
        ensures
            final(func).sig_refs@.len() == old(func).sig_refs@.len() + 1,
            ({
                let sig = final(func).sig_refs@.last();
                &&& sig.params@ == old(self).mod_info.signatures@[index.0 as int].params@.push(
                    AbiParam {
                        value_type: old(self).mod_info.config.pointer_type_spec(),
                        purpose: ArgumentPurpose::VMContext,
                    },
                )
                &&& sig.results@ == old(self).mod_info.signatures@[index.0 as int].results@
            }),
            forall|i: int|
                0 <= i < old(func).sig_refs@.len() ==> final(func).sig_refs@[i] == old(func).sig_refs@[i],
            r == Ok::<SigRef, WasmError>(SigRef(old(func).sig_refs@.len() as usize)),
            final(func).name == old(func).name,
            final(func).signature == old(func).signature,
            final(func).global_values@ == old(func).global_values@,
            final(func).tables@ == old(func).tables@,
            final(func).ext_funcs@ == old(func).ext_funcs@,
            final(func).blocks@ == old(func).blocks@,
            final(func).insts@ == old(func).insts@,
            final(func).num_values == old(func).num_values,
            final(self).mod_info == old(self).mod_info,
            final(self).expected_reachability == old(self).expected_reachability,
            final(self).heaps@ == old(self).heaps@,
    {
        let sig = self.vmctx_sig(index);
        Ok(func.import_signature(sig))
    }

    /// Import the handle for a direct call: an external function under
    /// the callee's declared signature amended with the `vmctx`
    /// argument, named by its function index.
    pub fn make_direct_func(&mut self, func: &mut Function, index: FuncIndex) -> (r: WasmResult<
        ir::FuncRef,
    >)
        requires
            old(self).mod_info.config.ok(),
            index.0 < old(self).mod_info.functions@.len(),
            old(self).mod_info.functions@[index.0 as int].entity.0 < old(self).mod_info.signatures@.len(),
        ensures
            final(func).sig_refs@.len() == old(func).sig_refs@.len() + 1,
            ({
                let ti = old(self).mod_info.functions@[index.0 as int].entity;
                let sig = final(func).sig_refs@.last();
                &&& sig.params@ == old(self).mod_info.signatures@[ti.0 as int].params@.push(
                    AbiParam {
                        value_type: old(self).mod_info.config.pointer_type_spec(),
                        purpose: ArgumentPurpose::VMContext,
                    },
                )
                &&& sig.results@ == old(self).mod_info.signatures@[ti.0 as int].results@
            }),
            forall|i: int|
                0 <= i < old(func).sig_refs@.len() ==> final(func).sig_refs@[i] == old(func).sig_refs@[i],
            final(func).ext_funcs@ == old(func).ext_funcs@.push(
                ExtFuncData {
                    name: ExternalName::User { namespace: 0, index: index.0 },
                    signature: SigRef(old(func).sig_refs@.len() as usize),
                    colocated: false,
                },
            ),
            r == Ok::<ir::FuncRef, WasmError>(ir::FuncRef(old(func).ext_funcs@.len() as usize)),
            final(func).name == old(func).name,
            final(func).signature == old(func).signature,
            final(func).global_values@ == old(func).global_values@,
            final(func).tables@ == old(func).tables@,
            final(func).blocks@ == old(func).blocks@,
            final(func).insts@ == old(func).insts@,
            final(func).num_values == old(func).num_values,
            final(self).mod_info == old(self).mod_info,
            final(self).expected_reachability == old(self).expected_reachability,
            final(self).heaps@ == old(self).heaps@,
    {
        let sigidx = self.mod_info.functions[index.0 as usize].entity;
        let sig = self.vmctx_sig(sigidx);
        let signature = func.import_signature(sig);
        let name = ExternalName::User { namespace: 0, index: index.as_u32() };
        Ok(func.import_function(ExtFuncData { name, signature, colocated: false }))
    }

    /// Notify the environment that the translator stands before an
    /// operator, with the current reachability bit. With a prescribed
    /// trace installed, a mismatch is reported as an error.
    pub fn before_translate_operator(&mut self, reachable: bool) -> (r: WasmResult<()>)
        ensures
            match old(self).expected_reachability {
                None => r == Ok::<(), WasmError>(()) && final(self).expected_reachability
                    is None,
                Some(er) => if er.before_idx < er.reachability@.len() && er.reachability@[er.before_idx as int].0
                    == reachable {
                    r == Ok::<(), WasmError>(()) && (final(self).expected_reachability matches Some(
                        e2,
                    ) && e2.reachability@ == er.reachability@ && e2.before_idx == er.before_idx + 1
                        && e2.after_idx == er.after_idx)
                } else {
                    r == Err::<(), WasmError>(WasmError::Unsupported) && (final(self).expected_reachability matches Some(e2) && e2.reachability@
                        == er.reachability@ && e2.before_idx == er.before_idx && e2.after_idx
                        == er.after_idx)
                },
            },
            final(self).mod_info == old(self).mod_info,
            final(self).heaps@ == old(self).heaps@,
    {
        match self.expected_reachability.take() {
            None => Ok(()),
            Some(mut er) => {
                let ok = er.check_before(reachable);
                self.expected_reachability = Some(er);
                if ok {
                    Ok(())
                } else {
                    Err(WasmError::Unsupported)
                }
            },
        }
    }

    /// Notify the environment that the translator stands after an
    /// operator, with the current reachability bit. With a prescribed
    /// trace installed, a mismatch is reported as an error.
    pub fn after_translate_operator(&mut self, reachable: bool) -> (r: WasmResult<()>)
        ensures
            match old(self).expected_reachability {
                None => r == Ok::<(), WasmError>(()) && final(self).expected_reachability
                    is None,
                Some(er) => if er.after_idx < er.reachability@.len() && er.reachability@[er.after_idx as int].1
                    == reachable {
                    r == Ok::<(), WasmError>(()) && (final(self).expected_reachability matches Some(
                        e2,
                    ) && e2.reachability@ == er.reachability@ && e2.after_idx == er.after_idx + 1
                        && e2.before_idx == er.before_idx)
                } else {
                    r == Err::<(), WasmError>(WasmError::Unsupported) && (final(self).expected_reachability matches Some(e2) && e2.reachability@
                        == er.reachability@ && e2.before_idx == er.before_idx && e2.after_idx
                        == er.after_idx)
                },
            },
            final(self).mod_info == old(self).mod_info,
            final(self).heaps@ == old(self).heaps@,
    {
        match self.expected_reachability.take() {
            None => Ok(()),
            Some(mut er) => {
                let ok = er.check_after(reachable);
                self.expected_reachability = Some(er);
                if ok {
                    Ok(())
                } else {
                    Err(WasmError::Unsupported)
                }
            },
        }
    }

    /// Notify the environment that the translator finished the function
    /// body. With a prescribed trace installed, an unfinished trace is
    /// reported as an error.
    pub fn after_translate_function(&mut self) -> (r: WasmResult<()>)
        ensures
            match old(self).expected_reachability {
                None => r == Ok::<(), WasmError>(()),
                Some(er) => r == (if er.before_idx == er.reachability@.len() && er.after_idx
                    == er.reachability@.len() {
                    Ok::<(), WasmError>(())
                } else {
                    Err::<(), WasmError>(WasmError::Unsupported)
                }),
            },
            final(self).expected_reachability == old(self).expected_reachability,
            final(self).mod_info == old(self).mod_info,
            final(self).heaps@ == old(self).heaps@,
    {
        match &self.expected_reachability {
            None => Ok(()),
            Some(er) => {
                if er.check_end() {
                    Ok(())
                } else {
                    Err(WasmError::Unsupported)
                }
            },
        }
    }

    /// Lower a direct `call`: pass the caller's `vmctx` parameter on to
    /// the callee as the last argument.
    pub fn translate_call(
        &mut self,
        func: &mut Function,
        _callee_index: FuncIndex,
        callee: ir::FuncRef,
        call_args: &Vec<Value>,
    ) -> (r: WasmResult<ir::Inst>)
        requires
            first_param_with(old(func).signature.params@, ArgumentPurpose::VMContext, 0)
                is Some,
            old(func).num_values < usize::MAX,
        ensures
            ({
                let vi = first_param_with(
                    old(func).signature.params@,
                    ArgumentPurpose::VMContext,
                    0,
                ).unwrap();
                final(func).insts@ == old(func).insts@.push(
                    InstData::Call {
                        func_ref: callee,
                        args: final(func).insts@.last()->Call_args,
                    },
                ) && final(func).insts@.last()->Call_args@ == call_args@.push(
                    Value(vi as usize),
                )
            }),
            r == Ok::<ir::Inst, WasmError>(ir::Inst(old(func).insts@.len() as usize)),
            final(func).num_values == old(func).num_values + 1,
            final(func).decl_state() == old(func).decl_state(),
            final(self).mod_info == old(self).mod_info,
            final(self).expected_reachability == old(self).expected_reachability,
            final(self).heaps@ == old(self).heaps@,
    {
        let vmctx = match func.special_param(ArgumentPurpose::VMContext) {
            Some(v) => v,
            None => Value(0),
        };
        let args = push_arg(call_args, vmctx);
        let (inst, _) = func.emit(InstData::Call { func_ref: callee, args });
        Ok(inst)
    }

    /// Lower a `call_indirect`: extend the 32-bit callee index to pointer
    /// width if needed, multiply by the table's element stride, load the
    /// target function pointer from the table's base through a trusted
    /// load, and call it indirectly with the caller's `vmctx` appended.
    /// Bounds-checking is the table descriptor's responsibility.
    pub fn translate_call_indirect(
        &mut self,
        func: &mut Function,
        _table_index: TableIndex,
        table: ir::Table,
        _sig_index: TypeIndex,
        sig_ref: SigRef,
        callee: Value,
        call_args: &Vec<Value>,
    ) -> (r: WasmResult<ir::Inst>)
        requires
            old(self).mod_info.config.ok(),
            first_param_with(old(func).signature.params@, ArgumentPurpose::VMContext, 0)
                is Some,
            table.0 < old(func).tables@.len(),
            old(func).tables@[table.0 as int].element_size <= i64::MAX,
            old(func).num_values + 6 <= usize::MAX,
        ensures
            ({
                let vi = first_param_with(
                    old(func).signature.params@,
                    ArgumentPurpose::VMContext,
                    0,
                ).unwrap();
                let td = old(func).tables@[table.0 as int];
                let ptr = old(self).mod_info.config.pointer_type_spec();
                let v0 = old(func).num_values as int;
                let args = final(func).insts@.last()->CallIndirect_args;
                if old(self).mod_info.config.pointer_bytes == 8 {
                    final(func).insts@ == old(func).insts@.push(
                        InstData::UExtend { to: IrType::I64, arg: callee },
                    ).push(
                        InstData::IMulImm { arg: Value(v0 as usize), imm: td.element_size as i64 },
                    ).push(InstData::GlobalAddr { gv: td.base_gv }).push(
                        InstData::IAdd { x: Value((v0 + 2) as usize), y: Value((v0 + 1) as usize) },
                    ).push(
                        InstData::Load {
                            ty: ptr,
                            flags_trusted: true,
                            addr: Value((v0 + 3) as usize),
                            offset: 0,
                        },
                    ).push(
                        InstData::CallIndirect {
                            sig_ref,
                            callee: Value((v0 + 4) as usize),
                            args,
                        },
                    ) && args@ == call_args@.push(Value(vi as usize)) && final(func).num_values
                        == old(func).num_values + 6 && r == Ok::<ir::Inst, WasmError>(
                        ir::Inst((old(func).insts@.len() + 5) as usize),
                    )
                } else {
                    final(func).insts@ == old(func).insts@.push(
                        InstData::IMulImm { arg: callee, imm: td.element_size as i64 },
                    ).push(InstData::GlobalAddr { gv: td.base_gv }).push(
                        InstData::IAdd { x: Value((v0 + 1) as usize), y: Value(v0 as usize) },
                    ).push(
                        InstData::Load {
                            ty: ptr,
                            flags_trusted: true,
                            addr: Value((v0 + 2) as usize),
                            offset: 0,
                        },
                    ).push(
                        InstData::CallIndirect {
                            sig_ref,
                            callee: Value((v0 + 3) as usize),
                            args,
                        },
                    ) && args@ == call_args@.push(Value(vi as usize)) && final(func).num_values
                        == old(func).num_values + 5 && r == Ok::<ir::Inst, WasmError>(
                        ir::Inst((old(func).insts@.len() + 4) as usize),
                    )
                }
            }),
            final(func).decl_state() == old(func).decl_state(),
            final(self).mod_info == old(self).mod_info,
            final(self).expected_reachability == old(self).expected_reachability,
            final(self).heaps@ == old(self).heaps@,
    {
        let vmctx = match func.special_param(ArgumentPurpose::VMContext) {
            Some(v) => v,
            None => Value(0),
        };
        let td = func.tables[table.0];
        let stride = td.element_size as i64;
        let mul_val = if self.mod_info.config.pointer_bytes == 8 {
            let ext = func.emit(InstData::UExtend { to: IrType::I64, arg: callee }).1;
            func.emit(InstData::IMulImm { arg: ext, imm: stride }).1
        } else {
            func.emit(InstData::IMulImm { arg: callee, imm: stride }).1
        };
        let base_val = func.emit(InstData::GlobalAddr { gv: td.base_gv }).1;
        let addr_val = func.emit(InstData::IAdd { x: base_val, y: mul_val }).1;
        let ptr = self.pointer_type();
        let func_ptr = func.emit(
            InstData::Load { ty: ptr, flags_trusted: true, addr: addr_val, offset: 0 },
        ).1;
        let args = push_arg(call_args, vmctx);
        let (inst, _) = func.emit(InstData::CallIndirect { sig_ref, callee: func_ptr, args });
        Ok(inst)
    }

    /// A call through a typed function reference; this test environment
    /// does not lower it.
    pub fn translate_call_ref(
        &mut self,
        _func: &mut Function,
        _sig_ref: SigRef,
        _callee: Value,
        _call_args: &Vec<Value>,
    ) -> (r: WasmResult<ir::Inst>)
        ensures
            r == Err::<ir::Inst, WasmError>(WasmError::Unsupported),
            *final(_func) == *old(_func),
            final(self).mod_info == old(self).mod_info,
            final(self).expected_reachability == old(self).expected_reachability,
            final(self).heaps@ == old(self).heaps@,
    {
        Err(WasmError::Unsupported)
    }

    /// Lower `memory.grow`; this environment reports failure by yielding
    /// the constant -1.
    pub fn translate_memory_grow(
        &mut self,
        func: &mut Function,
        _index: MemoryIndex,
        _heap: ir::Heap,
        _val: Value,
    ) -> (r: WasmResult<Value>)
        requires
            old(func).num_values < usize::MAX,
        ensures
            final(func).insts@ == old(func).insts@.push(
                InstData::IConst { ty: IrType::I32, imm: -1i64 },
            ),
            r == Ok::<Value, WasmError>(Value(old(func).num_values)),
            final(func).num_values == old(func).num_values + 1,
            final(func).decl_state() == old(func).decl_state(),
            final(self).mod_info == old(self).mod_info,
            final(self).expected_reachability == old(self).expected_reachability,
            final(self).heaps@ == old(self).heaps@,
    {
        let (_, v) = func.emit(InstData::IConst { ty: IrType::I32, imm: -1 });
        Ok(v)
    }

    /// Lower `memory.size`; this environment yields the constant -1.
    pub fn translate_memory_size(
        &mut self,
        func: &mut Function,
        _index: MemoryIndex,
        _heap: ir::Heap,
    ) -> (r: WasmResult<Value>)
        requires
            old(func).num_values < usize::MAX,
        ensures
            final(func).insts@ == old(func).insts@.push(
                InstData::IConst { ty: IrType::I32, imm: -1i64 },
            ),
            r == Ok::<Value, WasmError>(Value(old(func).num_values)),
            final(func).num_values == old(func).num_values + 1,
            final(func).decl_state() == old(func).decl_state(),
            final(self).mod_info == old(self).mod_info,
            final(self).expected_reachability == old(self).expected_reachability,
            final(self).heaps@ == old(self).heaps@,
    {
        let (_, v) = func.emit(InstData::IConst { ty: IrType::I32, imm: -1 });
        Ok(v)
    }

    /// Lower `memory.copy`; this environment emits nothing for it.
    pub fn translate_memory_copy(
        &mut self,
        _func: &mut Function,
        _src_index: MemoryIndex,
        _src_heap: ir::Heap,
        _dst_index: MemoryIndex,
        _dst_heap: ir::Heap,
        _dst: Value,
        _src: Value,
        _len: Value,
    ) -> (r: WasmResult<()>)
        ensures
            r == Ok::<(), WasmError>(()),
            *final(_func) == *old(_func),
            final(self).mod_info == old(self).mod_info,
            final(self).expected_reachability == old(self).expected_reachability,
            final(self).heaps@ == old(self).heaps@,
    {
        Ok(())
    }

    /// Lower `memory.fill`; this environment emits nothing for it.
    pub fn translate_memory_fill(
        &mut self,
        _func: &mut Function,
        _index: MemoryIndex,
        _heap: ir::Heap,
        _dst: Value,
        _val: Value,
        _len: Value,
    ) -> (r: WasmResult<()>)
        ensures
            r == Ok::<(), WasmError>(()),
            *final(_func) == *old(_func),
            final(self).mod_info == old(self).mod_info,
            final(self).expected_reachability == old(self).expected_reachability,
            final(self).heaps@ == old(self).heaps@,
    {
        Ok(())
    }

    /// Lower `memory.init`; this environment emits nothing for it.
    pub fn translate_memory_init(
        &mut self,
        _func: &mut Function,
        _index: MemoryIndex,
        _heap: ir::Heap,
        _seg_index: u32,
        _dst: Value,
        _src: Value,
        _len: Value,
    ) -> (r: WasmResult<()>)
        ensures
            r == Ok::<(), WasmError>(()),
            *final(_func) == *old(_func),
            final(self).mod_info == old(self).mod_info,
            final(self).expected_reachability == old(self).expected_reachability,
            final(self).heaps@ == old(self).heaps@,
    {
        Ok(())
    }

    /// Lower `data.drop`; this environment emits nothing for it.
    pub fn translate_data_drop(&mut self, _func: &mut Function, _seg_index: u32) -> (r: WasmResult<
        (),
    >)
        ensures
            r == Ok::<(), WasmError>(()),
            *final(_func) == *old(_func),
            final(self).mod_info == old(self).mod_info,
            final(self).expected_reachability == old(self).expected_reachability,
            final(self).heaps@ == old(self).heaps@,
    {
        Ok(())
    }

    /// Lower `table.size`; this environment yields the constant -1.
    pub fn translate_table_size(
        &mut self,
        func: &mut Function,
        _index: TableIndex,
        _table: ir::Table,
    ) -> (r: WasmResult<Value>)
        requires
            old(func).num_values < usize::MAX,
        ensures
            final(func).insts@ == old(func).insts@.push(
                InstData::IConst { ty: IrType::I32, imm: -1i64 },
            ),
            r == Ok::<Value, WasmError>(Value(old(func).num_values)),
            final(func).num_values == old(func).num_values + 1,
            final(func).decl_state() == old(func).decl_state(),
            final(self).mod_info == old(self).mod_info,
            final(self).expected_reachability == old(self).expected_reachability,
            final(self).heaps@ == old(self).heaps@,
    {
        let (_, v) = func.emit(InstData::IConst { ty: IrType::I32, imm: -1 });
        Ok(v)
    }

    /// Lower `table.grow`; this environment reports failure by yielding
    /// the constant -1.
    pub fn translate_table_grow(
        &mut self,
        func: &mut Function,
        _table_index: TableIndex,
        _table: ir::Table,
        _delta: Value,
        _init_value: Value,
    ) -> (r: WasmResult<Value>)
        requires
            old(func).num_values < usize::MAX,
        ensures
            final(func).insts@ == old(func).insts@.push(
                InstData::IConst { ty: IrType::I32, imm: -1i64 },
            ),
            r == Ok::<Value, WasmError>(Value(old(func).num_values)),
            final(func).num_values == old(func).num_values + 1,
            final(func).decl_state() == old(func).decl_state(),
            final(self).mod_info == old(self).mod_info,
            final(self).expected_reachability == old(self).expected_reachability,
            final(self).heaps@ == old(self).heaps@,
    {
        let (_, v) = func.emit(InstData::IConst { ty: IrType::I32, imm: -1 });
        Ok(v)
    }

    /// Lower `table.get`; this environment yields a null reference.
    pub fn translate_table_get(
        &mut self,
        func: &mut Function,
        _table_index: TableIndex,
        _table: ir::Table,
        _index: Value,
    ) -> (r: WasmResult<Value>)
        requires
            old(self).mod_info.config.ok(),
            old(func).num_values < usize::MAX,
        ensures
            final(func).insts@ == old(func).insts@.push(
                InstData::Null {
                    ty: reference_type_of(old(self).mod_info.config.pointer_type_spec()),
                },
            ),
            r == Ok::<Value, WasmError>(Value(old(func).num_values)),
            final(func).num_values == old(func).num_values + 1,
            final(func).decl_state() == old(func).decl_state(),
            final(self).mod_info == old(self).mod_info,
            final(self).expected_reachability == old(self).expected_reachability,
            final(self).heaps@ == old(self).heaps@,
    {
        let ty = self.reference_type();
        let (_, v) = func.emit(InstData::Null { ty });
        Ok(v)
    }

    /// Lower `table.set`; this environment emits nothing for it.
    pub fn translate_table_set(
        &mut self,
        _func: &mut Function,
        _table_index: TableIndex,
        _table: ir::Table,
        _value: Value,
        _index: Value,
    ) -> (r: WasmResult<()>)
        ensures
            r == Ok::<(), WasmError>(()),
            *final(_func) == *old(_func),
            final(self).mod_info == old(self).mod_info,
            final(self).expected_reachability == old(self).expected_reachability,
            final(self).heaps@ == old(self).heaps@,
    {
        Ok(())
    }

    /// Lower `table.copy`; this environment emits nothing for it.
    pub fn translate_table_copy(
        &mut self,
        _func: &mut Function,
        _dst_index: TableIndex,
        _dst_table: ir::Table,
        _src_index: TableIndex,
        _src_table: ir::Table,
        _dst: Value,
        _src: Value,
        _len: Value,
    ) -> (r: WasmResult<()>)
        ensures
            r == Ok::<(), WasmError>(()),
            *final(_func) == *old(_func),
            final(self).mod_info == old(self).mod_info,
            final(self).expected_reachability == old(self).expected_reachability,
            final(self).heaps@ == old(self).heaps@,
    {
        Ok(())
    }

    /// Lower `table.fill`; this environment emits nothing for it.
    pub fn translate_table_fill(
        &mut self,
        _func: &mut Function,
        _table_index: TableIndex,
        _dst: Value,
        _val: Value,
        _len: Value,
    ) -> (r: WasmResult<()>)
        ensures
            r == Ok::<(), WasmError>(()),
            *final(_func) == *old(_func),
            final(self).mod_info == old(self).mod_info,
            final(self).expected_reachability == old(self).expected_reachability,
            final(self).heaps@ == old(self).heaps@,
    {
        Ok(())
    }

    /// Lower `table.init`; this environment emits nothing for it.
    pub fn translate_table_init(
        &mut self,
        _func: &mut Function,
        _seg_index: u32,
        _table_index: TableIndex,
        _table: ir::Table,
        _dst: Value,
        _src: Value,
        _len: Value,
    ) -> (r: WasmResult<()>)
        ensures
            r == Ok::<(), WasmError>(()),
            *final(_func) == *old(_func),
            final(self).mod_info == old(self).mod_info,
            final(self).expected_reachability == old(self).expected_reachability,
            final(self).heaps@ == old(self).heaps@,
    {
        Ok(())
    }

    /// Lower `elem.drop`; this environment emits nothing for it.
    pub fn translate_elem_drop(&mut self, _func: &mut Function, _seg_index: u32) -> (r: WasmResult<
        (),
    >)
        ensures
            r == Ok::<(), WasmError>(()),
            *final(_func) == *old(_func),
            final(self).mod_info == old(self).mod_info,
            final(self).expected_reachability == old(self).expected_reachability,
            final(self).heaps@ == old(self).heaps@,
    {
        Ok(())
    }

    /// Lower `ref.func`; this environment yields a null reference.
    pub fn translate_ref_func(
        &mut self,
        func: &mut Function,
        _func_index: FuncIndex,
    ) -> (r: WasmResult<Value>)
        requires
            old(self).mod_info.config.ok(),
            old(func).num_values < usize::MAX,
        ensures
            final(func).insts@ == old(func).insts@.push(
                InstData::Null {
                    ty: reference_type_of(old(self).mod_info.config.pointer_type_spec()),
                },
            ),
            r == Ok::<Value, WasmError>(Value(old(func).num_values)),
            final(func).num_values == old(func).num_values + 1,
            final(func).decl_state() == old(func).decl_state(),
            final(self).mod_info == old(self).mod_info,
            final(self).expected_reachability == old(self).expected_reachability,
            final(self).heaps@ == old(self).heaps@,
    {
        let ty = self.reference_type();
        let (_, v) = func.emit(InstData::Null { ty });
        Ok(v)
    }

    /// Lower a custom `global.get`; this environment yields the constant
    /// -1.
    pub fn translate_custom_global_get(
        &mut self,
        func: &mut Function,
        _global_index: GlobalIndex,
    ) -> (r: WasmResult<Value>)
        requires
            old(func).num_values < usize::MAX,
        ensures
            final(func).insts@ == old(func).insts@.push(
                InstData::IConst { ty: IrType::I32, imm: -1i64 },
            ),
            r == Ok::<Value, WasmError>(Value(old(func).num_values)),
            final(func).num_values == old(func).num_values + 1,
            final(func).decl_state() == old(func).decl_state(),
            final(self).mod_info == old(self).mod_info,
            final(self).expected_reachability == old(self).expected_reachability,
            final(self).heaps@ == old(self).heaps@,
    {
        let (_, v) = func.emit(InstData::IConst { ty: IrType::I32, imm: -1 });
        Ok(v)
    }

    /// Lower a custom `global.set`; this environment emits nothing for
    /// it.
    pub fn translate_custom_global_set(
        &mut self,
        _func: &mut Function,
        _global_index: GlobalIndex,
        _val: Value,
    ) -> (r: WasmResult<()>)
        ensures
            r == Ok::<(), WasmError>(()),
            *final(_func) == *old(_func),
            final(self).mod_info == old(self).mod_info,
            final(self).expected_reachability == old(self).expected_reachability,
            final(self).heaps@ == old(self).heaps@,
    {
        Ok(())
    }

    /// Lower `memory.atomic.wait32`/`wait64`; this environment yields the
    /// constant -1.
    pub fn translate_atomic_wait(
        &mut self,
        func: &mut Function,
        _index: MemoryIndex,
        _heap: ir::Heap,
        _addr: Value,
        _expected: Value,
        _timeout: Value,
    ) -> (r: WasmResult<Value>)
        requires
            old(func).num_values < usize::MAX,
        ensures
            final(func).insts@ == old(func).insts@.push(
                InstData::IConst { ty: IrType::I32, imm: -1i64 },
            ),
            r == Ok::<Value, WasmError>(Value(old(func).num_values)),
            final(func).num_values == old(func).num_values + 1,
            final(func).decl_state() == old(func).decl_state(),
            final(self).mod_info == old(self).mod_info,
            final(self).expected_reachability == old(self).expected_reachability,
            final(self).heaps@ == old(self).heaps@,
    {
        let (_, v) = func.emit(InstData::IConst { ty: IrType::I32, imm: -1 });
        Ok(v)
    }

    /// Lower `memory.atomic.notify`; this environment yields the constant
    /// 0.
    pub fn translate_atomic_notify(
        &mut self,
        func: &mut Function,
        _index: MemoryIndex,
        _heap: ir::Heap,
        _addr: Value,
        _count: Value,
    ) -> (r: WasmResult<Value>)
        requires
            old(func).num_values < usize::MAX,
        ensures
            final(func).insts@ == old(func).insts@.push(
                InstData::IConst { ty: IrType::I32, imm: 0i64 },
            ),
            r == Ok::<Value, WasmError>(Value(old(func).num_values)),
            final(func).num_values == old(func).num_values + 1,
            final(func).decl_state() == old(func).decl_state(),
            final(self).mod_info == old(self).mod_info,
            final(self).expected_reachability == old(self).expected_reachability,
            final(self).heaps@ == old(self).heaps@,
    {
        let (_, v) = func.emit(InstData::IConst { ty: IrType::I32, imm: 0 });
        Ok(v)
    }

    /// Lower `cont.new`; this test environment does not lower
    /// continuation operators.
    pub fn translate_cont_new(
        &mut self,
        _func: &mut Function,
        _func_val: Value,
        _arg_types: &Vec<WasmType>,
        _return_types: &Vec<WasmType>,
    ) -> (r: WasmResult<Value>)
        ensures
            r == Err::<Value, WasmError>(WasmError::Unsupported),
            *final(_func) == *old(_func),
            final(self).mod_info == old(self).mod_info,
            final(self).expected_reachability == old(self).expected_reachability,
            final(self).heaps@ == old(self).heaps@,
    {
        Err(WasmError::Unsupported)
    }

    /// Lower `resume`; this test environment does not lower continuation
    /// operators.
    pub fn translate_resume(
        &mut self,
        _func: &mut Function,
        _cont: Value,
        _call_arg_types: &Vec<WasmType>,
        _call_args: &Vec<Value>,
    ) -> (r: WasmResult<(Value, Value, Value)>)
        ensures
            r == Err::<(Value, Value, Value), WasmError>(WasmError::Unsupported),
            *final(_func) == *old(_func),
            final(self).mod_info == old(self).mod_info,
            final(self).expected_reachability == old(self).expected_reachability,
            final(self).heaps@ == old(self).heaps@,
    {
        Err(WasmError::Unsupported)
    }

    /// Lower `resume_throw`; this test environment does not lower
    /// continuation operators.
    pub fn translate_resume_throw(
        &mut self,
        _func: &mut Function,
        _tag_index: u32,
        _cont: Value,
    ) -> (r: WasmResult<Value>)
        ensures
            r == Err::<Value, WasmError>(WasmError::Unsupported),
            *final(_func) == *old(_func),
            final(self).mod_info == old(self).mod_info,
            final(self).expected_reachability == old(self).expected_reachability,
            final(self).heaps@ == old(self).heaps@,
    {
        Err(WasmError::Unsupported)
    }

    /// Lower `suspend`; this test environment does not lower continuation
    /// operators.
    pub fn translate_suspend(&mut self, _func: &mut Function, _tag_index: u32) -> (r: WasmResult<
        (),
    >)
        ensures
            r == Err::<(), WasmError>(WasmError::Unsupported),
            *final(_func) == *old(_func),
            final(self).mod_info == old(self).mod_info,
            final(self).expected_reachability == old(self).expected_reachability,
            final(self).heaps@ == old(self).heaps@,
    {
        Err(WasmError::Unsupported)
    }

    /// The argument types of a continuation type; this test environment
    /// resolves no continuation types.
    pub fn continuation_arguments(&self, _type_index: u32) -> (r: WasmResult<Vec<WasmType>>)
        ensures
            r == Err::<Vec<WasmType>, WasmError>(WasmError::Unsupported),
    {
        Err(WasmError::Unsupported)
    }

    /// The return types of a continuation type; this test environment
    /// resolves no continuation types.
    pub fn continuation_returns(&self, _type_index: u32) -> (r: WasmResult<Vec<WasmType>>)
        ensures
            r == Err::<Vec<WasmType>, WasmError>(WasmError::Unsupported),
    {
        Err(WasmError::Unsupported)
    }

    /// The payload types of a tag; this test environment resolves no
    /// tags.
    pub fn tag_params(&self, _tag_index: u32) -> (r: WasmResult<Vec<WasmType>>)
        ensures
            r == Err::<Vec<WasmType>, WasmError>(WasmError::Unsupported),
    {
        Err(WasmError::Unsupported)
    }

    /// The return types of a tag; this test environment resolves no
    /// tags.
    pub fn tag_returns(&self, _tag_index: u32) -> (r: WasmResult<Vec<WasmType>>)
        ensures
            r == Err::<Vec<WasmType>, WasmError>(WasmError::Unsupported),
    {
        Err(WasmError::Unsupported)
    }

    /// Load the payload values out of the payload buffer; this test
    /// environment does not lower continuation operators.
    pub fn typed_continuations_load_payloads(
        &mut self,
        _func: &mut Function,
        _valtypes: &Vec<WasmType>,
        _base_addr: Value,
    ) -> (r: WasmResult<Vec<Value>>)
        ensures
            r == Err::<Vec<Value>, WasmError>(WasmError::Unsupported),
            *final(_func) == *old(_func),
            final(self).mod_info == old(self).mod_info,
            final(self).expected_reachability == old(self).expected_reachability,
            final(self).heaps@ == old(self).heaps@,
    {
        Err(WasmError::Unsupported)
    }

    /// Store the resume arguments into a continuation; this test
    /// environment does not lower continuation operators.
    pub fn typed_continuations_store_resume_args(
        &mut self,
        _func: &mut Function,
        _values: &Vec<Value>,
        _contref: Value,
    ) -> (r: WasmResult<()>)
        ensures
            r == Err::<(), WasmError>(WasmError::Unsupported),
            *final(_func) == *old(_func),
            final(self).mod_info == old(self).mod_info,
            final(self).expected_reachability == old(self).expected_reachability,
            final(self).heaps@ == old(self).heaps@,
    {
        Err(WasmError::Unsupported)
    }

    /// Store payload values into the payload buffer; this test
    /// environment does not lower continuation operators.
    pub fn typed_continuations_store_payloads(
        &mut self,
        _func: &mut Function,
        _valtypes: &Vec<WasmType>,
        _values: &Vec<Value>,
        _base_addr: Value,
    ) -> (r: WasmResult<()>)
        ensures
            r == Err::<(), WasmError>(WasmError::Unsupported),
            *final(_func) == *old(_func),
            final(self).mod_info == old(self).mod_info,
            final(self).expected_reachability == old(self).expected_reachability,
            final(self).heaps@ == old(self).heaps@,
    {
        Err(WasmError::Unsupported)
    }

    /// Reset a continuation's payload buffer; this test environment does
    /// not lower continuation operators.
    pub fn typed_continuations_reset_payloads(
        &mut self,
        _func: &mut Function,
        _contobj: Value,
    ) -> (r: WasmResult<()>)
        ensures
            r == Err::<(), WasmError>(WasmError::Unsupported),
            *final(_func) == *old(_func),
            final(self).mod_info == old(self).mod_info,
            final(self).expected_reachability == old(self).expected_reachability,
            final(self).heaps@ == old(self).heaps@,
    {
        Err(WasmError::Unsupported)
    }

    /// Load the current continuation object out of the context; this test
    /// environment does not lower continuation operators.
    pub fn typed_continuations_load_continuation_object(
        &mut self,
        _func: &mut Function,
        _base_addr: Value,
    ) -> (r: WasmResult<Value>)
        ensures
            r == Err::<Value, WasmError>(WasmError::Unsupported),
            *final(_func) == *old(_func),
            final(self).mod_info == old(self).mod_info,
            final(self).expected_reachability == old(self).expected_reachability,
            final(self).heaps@ == old(self).heaps@,
    {
        Err(WasmError::Unsupported)
    }

    /// Wrap a continuation object in a new reference; this test
    /// environment does not lower continuation operators.
    pub fn typed_continuations_new_cont_ref(
        &mut self,
        _func: &mut Function,
        _contobj_addr: Value,
    ) -> (r: WasmResult<Value>)
        ensures
            r == Err::<Value, WasmError>(WasmError::Unsupported),
            *final(_func) == *old(_func),
            final(self).mod_info == old(self).mod_info,
            final(self).expected_reachability == old(self).expected_reachability,
            final(self).heaps@ == old(self).heaps@,
    {
        Err(WasmError::Unsupported)
    }

    /// Load a returned continuation's result values; this test
    /// environment does not lower continuation operators.
    pub fn typed_continuations_load_return_values(
        &mut self,
        _func: &mut Function,
        _valtypes: &Vec<WasmType>,
        _contobj: Value,
    ) -> (r: WasmResult<Vec<Value>>)
        ensures
            r == Err::<Vec<Value>, WasmError>(WasmError::Unsupported),
            *final(_func) == *old(_func),
            final(self).mod_info == old(self).mod_info,
            final(self).expected_reachability == old(self).expected_reachability,
            final(self).heaps@ == old(self).heaps@,
    {
        Err(WasmError::Unsupported)
    }

    /// Project the continuation object behind a reference; this test
    /// environment does not lower continuation operators.
    pub fn typed_continuations_cont_ref_get_cont_obj(
        &mut self,
        _func: &mut Function,
        _contref: Value,
    ) -> (r: WasmResult<Value>)
        ensures
            r == Err::<Value, WasmError>(WasmError::Unsupported),
            *final(_func) == *old(_func),
            final(self).mod_info == old(self).mod_info,
            final(self).expected_reachability == old(self).expected_reachability,
            final(self).heaps@ == old(self).heaps@,
    {
        Err(WasmError::Unsupported)
    }
}

/// A fresh argument list: the given arguments with one more appended.
fn push_arg(args: &Vec<Value>, extra: Value) -> (r: Vec<Value>)
    ensures
        r@ == args@.push(extra),
{
    let mut out: Vec<Value> = Vec::new();
    let mut i: usize = 0;
    while i < args.len()
        invariant
            0 <= i <= args@.len(),
            out@ == args@.take(i as int),
        decreases args@.len() - i,
    {
        out.push(args[i]);
        i = i + 1;
    }
    proof {
        assert(args@.take(args@.len() as int) =~= args@);
    }
    out.push(extra);
    out
}

} // verus!
