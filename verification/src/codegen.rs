//! The code generator of the native-code backend: from the functions of the
//! intermediate representation to a module of the target.

use vstd::prelude::*;
use vstd::string::StringExecFns;
use std::collections::HashMap;
use crate::builder::{block_label_text, create_blocks, empty_blocks, Builder, BuilderView};
use crate::instructions::{
    bind, block_map_view, dest_local, env_view, lemma_destination_is_bound,
    operand_to_llvm_value, resolve, resolve_incoming, state_of, step, translate_arithmetic,
    translate_comparison, translate_control_flow, translate_memory, TranslationState,
};
use crate::mir::{
    function_views, BasicBlock, BasicBlockView, Hir, Instruction, InstructionView, Local,
    MirFunction, MirFunctionView, OperandView, ParamView,
};
use crate::ports::{
    BackendInput, BackendInputType, CodeGen, CodeGenError, CodeGenErrorView, InternalError, Module,
    ModuleData, ModuleDataView, ModuleView, OptimizationLevel, refuses,
};
use crate::target::{
    BinaryOp, TargetFunction, TargetFunctionView, TargetInst, TargetModule, TargetModuleView,
    TargetType, TargetTypeView, TargetValue, TargetValueView,
};
use crate::types::{has_generic, lower_type, mir_type_to_llvm_type};

verus! {

/// The payload of a module of this backend: the target module, the level it
/// was generated for, and the optimization runs asked for so far.
#[derive(Debug, PartialEq, Eq)]
pub struct LlvmModuleWrapper {
    pub module: TargetModule,
    pub opt_level: OptimizationLevel,
    pub passes: Vec<OptimizationLevel>,
}

/// What an [`LlvmModuleWrapper`] is, as a mathematical value.
pub struct LlvmModuleView {
    pub module: TargetModuleView,
    pub opt_level: OptimizationLevel,
    pub passes: Seq<OptimizationLevel>,
}

impl View for LlvmModuleWrapper {
    type V = LlvmModuleView;

    open spec fn view(&self) -> LlvmModuleView {
        LlvmModuleView { module: self.module@, opt_level: self.opt_level, passes: self.passes@ }
    }
}

impl LlvmModuleWrapper {
    /// Wraps a target module that no optimization run was asked for yet.
    pub fn new(module: TargetModule) -> (wrapper: Self)
        ensures
            wrapper@ == (LlvmModuleView {
                module: module@,
                opt_level: OptimizationLevel::Default,
                passes: Seq::empty(),
            }),
    {
        Self { module, opt_level: OptimizationLevel::Default, passes: Vec::new() }
    }

    /// The target module.
    pub fn get(&self) -> (module: &TargetModule)
        ensures
            module@ == self@.module,
    {
        &self.module
    }
}

/// The state after a run of instructions, in order, or the first fault.
pub open spec fn run(
    insts: Seq<InstructionView>,
    state: TranslationState,
    blocks: Map<usize, nat>,
) -> Result<TranslationState, InternalError>
    decreases insts.len(),
{
    if insts.len() == 0 {
        Ok(state)
    } else {
        match run(insts.drop_last(), state, blocks) {
            Err(fault) => Err(fault),
            Ok(before_last) => step(insts.last(), before_last, blocks),
        }
    }
}

/// The state after the first blocks of a function, or the first fault. The
/// blocks are taken in the order of their positions: for each the builder
/// moves to the end of the target block at the same position, and the
/// block's instructions follow. One value environment serves all blocks.
pub open spec fn run_blocks(
    blocks: Seq<BasicBlockView>,
    state: TranslationState,
    block_map: Map<usize, nat>,
) -> Result<TranslationState, InternalError>
    decreases blocks.len(),
{
    if blocks.len() == 0 {
        Ok(state)
    } else {
        match run_blocks(blocks.drop_last(), state, block_map) {
            Err(fault) => Err(fault),
            Ok(before_last) => run(
                blocks.last().instructions,
                TranslationState {
                    builder: before_last.builder.at((blocks.len() - 1) as nat),
                    ..before_last
                },
                block_map,
            ),
        }
    }
}

/// The block map of a function with so many blocks: each position has the
/// target block at the same position.
pub open spec fn identity_block_map(count: nat) -> Map<usize, nat> {
    Map::new(|index: usize| index < count, |index: usize| index as nat)
}

/// The value environment before the first instruction: each parameter's
/// local stands for the parameter at its position.
pub open spec fn param_env(params: Seq<ParamView>) -> Map<usize, TargetValueView>
    decreases params.len(),
{
    if params.len() == 0 {
        Map::empty()
    } else {
        param_env(params.drop_last()).insert(
            params.last().local.id,
            TargetValueView::Param { index: (params.len() - 1) as nat },
        )
    }
}

/// Whether a type parameter occurs in the return type or in the type of a
/// parameter.
pub open spec fn signature_has_generic(f: MirFunctionView) -> bool {
    ||| (f.return_type matches Some(t) && has_generic(t))
    ||| exists|i: int| 0 <= i < f.params.len() && has_generic((#[trigger] f.params[i]).type_)
}

/// The function as it is registered, before any instruction is translated:
/// the declared name, the lowered signature, and one empty block for each
/// block of the source. A function without a return type returns nothing.
pub open spec fn declared(f: MirFunctionView) -> TargetFunctionView {
    TargetFunctionView {
        name: f.name,
        ret: match f.return_type {
            Some(t) => lower_type(t),
            None => TargetTypeView::Void,
        },
        params: f.params.map_values(|p: ParamView| lower_type(p.type_)),
        blocks: empty_blocks(f.basic_blocks.len()),
    }
}

/// The state in which the translation of a function's blocks starts.
pub open spec fn initial_state(f: MirFunctionView) -> TranslationState {
    TranslationState {
        builder: BuilderView { function: declared(f), position: 0 },
        env: param_env(f.params),
    }
}

/// The target function that a function of the intermediate representation
/// becomes, or the fault that stops its translation.
pub open spec fn translated(f: MirFunctionView) -> Result<TargetFunctionView, InternalError> {
    if signature_has_generic(f) {
        Err(InternalError::UnsubstitutedGeneric)
    } else if f.basic_blocks.len() == 0 {
        Ok(declared(f))
    } else {
        match run_blocks(
            f.basic_blocks,
            initial_state(f),
            identity_block_map(f.basic_blocks.len()),
        ) {
            Err(fault) => Err(fault),
            Ok(end) => Ok(end.builder.function),
        }
    }
}

proof fn lemma_run_fault_stays(
    insts: Seq<InstructionView>,
    state: TranslationState,
    blocks: Map<usize, nat>,
    k: int,
    n: int,
)
    requires
        0 <= k <= n <= insts.len(),
        run(insts.take(k), state, blocks) is Err,
    ensures
        run(insts.take(n), state, blocks) == run(insts.take(k), state, blocks),
    decreases n - k,
{
    if k < n {
        lemma_run_fault_stays(insts, state, blocks, k, n - 1);
        assert(insts.take(n).drop_last() =~= insts.take(n - 1));
    }
}

proof fn lemma_run_blocks_fault_stays(
    blocks: Seq<BasicBlockView>,
    state: TranslationState,
    block_map: Map<usize, nat>,
    k: int,
    n: int,
)
    requires
        0 <= k <= n <= blocks.len(),
        run_blocks(blocks.take(k), state, block_map) is Err,
    ensures
        run_blocks(blocks.take(n), state, block_map) == run_blocks(
            blocks.take(k),
            state,
            block_map,
        ),
    decreases n - k,
{
    if k < n {
        lemma_run_blocks_fault_stays(blocks, state, block_map, k, n - 1);
        assert(blocks.take(n).drop_last() =~= blocks.take(n - 1));
    }
}

/// Translates one instruction by the translator of its family.
///
/// The families are tried in turn: arithmetic, comparison, memory, control
/// flow; what is left is `Call`, `Phi`, `Copy` and the bitwise `And`, `Or`
/// and `Not`. On a fault nothing is emitted or bound.
pub fn translate_instruction(
    builder: &mut Builder,
    inst: &Instruction,
    local_map: &mut HashMap<usize, TargetValue>,
    bb_map: &HashMap<usize, usize>,
) -> (result: Result<(), InternalError>)
    ensures
        match step(inst@, state_of(*old(builder), old(local_map)@), block_map_view(bb_map@)) {
            Ok(next) => result is Ok && state_of(*final(builder), final(local_map)@) == next,
            Err(fault) => result == Err::<(), InternalError>(fault) && state_of(
                *final(builder),
                final(local_map)@,
            ) == state_of(*old(builder), old(local_map)@),
        },
{
    reveal(step);
    match translate_arithmetic(builder, inst, local_map) {
        Err(e) => {
            return Err(e);
        },
        Ok(Some(_)) => {
            return Ok(());
        },
        Ok(None) => {},
    }
    match translate_comparison(builder, inst, local_map) {
        Err(e) => {
            return Err(e);
        },
        Ok(Some(_)) => {
            return Ok(());
        },
        Ok(None) => {},
    }
    match translate_memory(builder, inst, local_map) {
        Err(e) => {
            return Err(e);
        },
        Ok(Some(_)) => {
            return Ok(());
        },
        Ok(None) => {},
    }
    match translate_control_flow(builder, inst, local_map, bb_map) {
        Err(e) => {
            return Err(e);
        },
        Ok(true) => {
            return Ok(());
        },
        Ok(false) => {},
    }
    match inst {
        Instruction::Call { dest, .. } => {
            match dest {
                Some(d) => {
                    bind(local_map, d.id, TargetValue::Placeholder);
                },
                None => {},
            }
        },
        Instruction::Phi { dest, type_, incoming } => {
            let ty = match mir_type_to_llvm_type(type_) {
                Ok(t) => t,
                Err(e) => {
                    return Err(e);
                },
            };
            let edges = match resolve_incoming(incoming, local_map, bb_map) {
                Ok(es) => es,
                Err(e) => {
                    return Err(e);
                },
            };
            let merged = builder.emit(TargetInst::Phi { ty, incoming: edges });
            bind(local_map, dest.id, merged);
        },
        Instruction::Copy { dest, source, .. } => {
            let value = match operand_to_llvm_value(source, local_map) {
                Ok(v) => v,
                Err(e) => {
                    return Err(e);
                },
            };
            bind(local_map, dest.id, value);
        },
        Instruction::And { dest, left, right } => {
            let l = match operand_to_llvm_value(left, local_map) {
                Ok(v) => v,
                Err(e) => {
                    return Err(e);
                },
            };
            let r = match operand_to_llvm_value(right, local_map) {
                Ok(v) => v,
                Err(e) => {
                    return Err(e);
                },
            };
            let result = builder.emit(TargetInst::Binary { op: BinaryOp::And, left: l, right: r });
            bind(local_map, dest.id, result);
        },
        Instruction::Or { dest, left, right } => {
            let l = match operand_to_llvm_value(left, local_map) {
                Ok(v) => v,
                Err(e) => {
                    return Err(e);
                },
            };
            let r = match operand_to_llvm_value(right, local_map) {
                Ok(v) => v,
                Err(e) => {
                    return Err(e);
                },
            };
            let result = builder.emit(TargetInst::Binary { op: BinaryOp::Or, left: l, right: r });
            bind(local_map, dest.id, result);
        },
        Instruction::Not { dest, operand } => {
            let value = match operand_to_llvm_value(operand, local_map) {
                Ok(v) => v,
                Err(e) => {
                    return Err(e);
                },
            };
            let result = builder.emit(TargetInst::Not { operand: value });
            bind(local_map, dest.id, result);
        },
        _ => {},
    }
    Ok(())
}

/// Translates the instructions of one block, in order, at the builder's
/// position. On a fault the builder and the environment are as the faulty
/// instruction found them.
pub fn translate_block(
    builder: &mut Builder,
    block: &BasicBlock,
    local_map: &mut HashMap<usize, TargetValue>,
    bb_map: &HashMap<usize, usize>,
) -> (result: Result<(), InternalError>)
    ensures
        match run(
            block@.instructions,
            state_of(*old(builder), old(local_map)@),
            block_map_view(bb_map@),
        ) {
            Ok(end) => result is Ok && state_of(*final(builder), final(local_map)@) == end,
            Err(fault) => result == Err::<(), InternalError>(fault),
        },
        final(builder)@.function.blocks.len() == old(builder)@.function.blocks.len(),
        final(builder)@.position == old(builder)@.position,
{
    let ghost insts = block@.instructions;
    let ghost start = state_of(*builder, local_map@);
    let ghost block_map = block_map_view(bb_map@);
    let mut k: usize = 0;
    proof {
        assert(insts.take(0) =~= Seq::<InstructionView>::empty());
    }
    let _ = builder.position();
    while k < block.instructions.len()
        invariant
            insts == block@.instructions,
            start == state_of(*old(builder), old(local_map)@),
            block_map == block_map_view(bb_map@),
            k <= block.instructions@.len(),
            builder@.function.blocks.len() == start.builder.function.blocks.len(),
            builder@.position == start.builder.position,
            builder@.wf(),
            run(insts.take(k as int), start, block_map) == Ok::<TranslationState, InternalError>(
                state_of(*builder, local_map@),
            ),
        decreases block.instructions@.len() - k,
    {
        proof {
            assert(insts.take(k + 1).drop_last() =~= insts.take(k as int));
            assert(insts.take(k + 1).last() == block.instructions@[k as int]@);
            if step(insts[k as int], state_of(*builder, local_map@), block_map) is Ok {
                lemma_step_keeps_frame(insts[k as int], state_of(*builder, local_map@), block_map);
            }
        }
        match translate_instruction(builder, &block.instructions[k], local_map, bb_map) {
            Ok(()) => {},
            Err(e) => {
                proof {
                    lemma_run_fault_stays(insts, start, block_map, k + 1, insts.len() as int);
                    assert(insts.take(insts.len() as int) =~= insts);
                }
                return Err(e);
            },
        }
        k = k + 1;
    }
    proof {
        assert(insts.take(k as int) =~= insts);
    }
    Ok(())
}

/// Translates one function.
///
/// The signature is lowered first; then one empty block is made for each
/// block of the source, so that a jump may name a block that comes later; the
/// parameters' locals are bound to the parameters; and then the blocks are
/// translated in the order of their positions, each instruction in turn.
pub fn lower_function(mir_func: &MirFunction) -> (lowered: Result<TargetFunction, InternalError>)
    ensures
        match translated(mir_func@) {
            Ok(f) => lowered matches Ok(t) && t@ == f,
            Err(fault) => lowered == Err::<TargetFunction, InternalError>(fault),
        },
{
    let ret = match &mir_func.return_type {
        Some(t) => match mir_type_to_llvm_type(t) {
            Ok(ret) => ret,
            Err(e) => {
                return Err(e);
            },
        },
        None => TargetType::Void,
    };
    let mut params: Vec<TargetType> = Vec::new();
    let mut i: usize = 0;
    while i < mir_func.params.len()
        invariant
            i <= mir_func.params@.len(),
            params@.len() == i,
            forall|j: int| 0 <= j < i ==> !has_generic((#[trigger] mir_func.params@[j]).type_@),
            forall|j: int|
                0 <= j < i ==> (#[trigger] params@[j])@ == lower_type(mir_func.params@[j].type_@),
        decreases mir_func.params@.len() - i,
    {
        match mir_type_to_llvm_type(&mir_func.params[i].type_) {
            Ok(t) => {
                params.push(t);
            },
            Err(e) => {
                assert(has_generic(mir_func@.params[i as int].type_));
                return Err(e);
            },
        }
        i = i + 1;
    }
    proof {
        assert forall|j: int| 0 <= j < mir_func@.params.len() implies !has_generic(
            (#[trigger] mir_func@.params[j]).type_,
        ) by {
            assert(mir_func@.params[j] == mir_func.params@[j]@);
        }
        assert(!signature_has_generic(mir_func@));
    }
    let count: usize = mir_func.basic_blocks.len();
    let blocks = create_blocks(count);
    let function = TargetFunction { name: mir_func.name.clone(), ret, params, blocks };
    proof {
        assert(function@.params =~= declared(mir_func@).params);
        assert(function@ == declared(mir_func@));
    }
    let mut bb_map: HashMap<usize, usize> = HashMap::new();
    let mut index: usize = 0;
    while index < count
        invariant
            index <= count,
            block_map_view(bb_map@) =~= identity_block_map(index as nat),
        decreases count - index,
    {
        let ghost before = bb_map@;
        bb_map.insert(index, index);
        proof {
            assert forall|i: usize| #[trigger]
                block_map_view(bb_map@).contains_key(i) <==> i < index + 1 by {
                assert(block_map_view(before).contains_key(i) <==> identity_block_map(
                    index as nat,
                ).contains_key(i));
            }
            assert forall|i: usize| #[trigger] block_map_view(bb_map@).contains_key(i) implies block_map_view(bb_map@)[i] == i as nat by {
                if i != index {
                    assert(block_map_view(before)[i] == identity_block_map(index as nat)[i]);
                }
            }
        }
        index = index + 1;
    }
    let mut local_map: HashMap<usize, TargetValue> = HashMap::new();
    let mut p: usize = 0;
    assert(env_view(local_map@) =~= param_env(mir_func@.params.take(0)));
    while p < mir_func.params.len()
        invariant
            p <= mir_func.params@.len(),
            env_view(local_map@) == param_env(mir_func@.params.take(p as int)),
        decreases mir_func.params@.len() - p,
    {
        proof {
            assert(mir_func@.params.take(p + 1).drop_last() =~= mir_func@.params.take(p as int));
            assert(mir_func@.params.take(p + 1).last() == mir_func.params@[p as int]@);
        }
        bind(&mut local_map, mir_func.params[p].local.id, TargetValue::Param { index: p });
        p = p + 1;
    }
    proof {
        assert(mir_func@.params.take(p as int) =~= mir_func@.params);
    }
    let mut builder = match Builder::position_at_end(function, 0) {
        Ok(b) => b,
        Err(f) => {
            return Ok(f);
        },
    };
    let ghost start = initial_state(mir_func@);
    let ghost block_map = identity_block_map(count as nat);
    let ghost source = mir_func@.basic_blocks;
    let mut b: usize = 0;
    assert(run_blocks(source.take(0), start, block_map) == Ok::<TranslationState, InternalError>(
        state_of(builder, local_map@),
    ));
    while b < count
        invariant
            count == mir_func.basic_blocks@.len(),
            count > 0,
            !signature_has_generic(mir_func@),
            source == mir_func@.basic_blocks,
            start == initial_state(mir_func@),
            block_map == identity_block_map(count as nat),
            block_map == block_map_view(bb_map@),
            b <= count,
            builder@.function.blocks.len() == count,
            run_blocks(source.take(b as int), start, block_map) == Ok::<
                TranslationState,
                InternalError,
            >(state_of(builder, local_map@)),
        decreases count - b,
    {
        builder.reposition(b);
        let block = &mir_func.basic_blocks[b];
        proof {
            assert(source.take(b + 1).drop_last() =~= source.take(b as int));
            assert(source.take(b + 1).last() == block@);
        }
        match translate_block(&mut builder, block, &mut local_map, &bb_map) {
            Ok(()) => {},
            Err(e) => {
                proof {
                    lemma_run_blocks_fault_stays(source, start, block_map, b + 1, source.len() as int);
                    assert(source.take(source.len() as int) =~= source);
                }
                return Err(e);
            },
        }
        b = b + 1;
    }
    proof {
        assert(source.take(b as int) =~= source);
    }
    Ok(builder.finish())
}

/// What the code generator says of a function whose name is taken.
pub open spec fn duplicate_message(name: Seq<char>) -> Seq<char> {
    "duplicate function: "@ + name
}

/// The module after one more function is registered, or why it is not. A
/// name can be registered once; the name is looked at before the function is
/// translated.
pub open spec fn register(module: TargetModuleView, f: MirFunctionView) -> Result<
    TargetModuleView,
    CodeGenErrorView,
> {
    if module.declares(f.name) {
        Err(CodeGenErrorView::GenerationFailed(duplicate_message(f.name)))
    } else {
        match translated(f) {
            Err(fault) => Err(CodeGenErrorView::Internal(fault)),
            Ok(function) => Ok(module.with_function(function)),
        }
    }
}

/// The module after the functions are registered in order, or the error of
/// the first function that cannot be.
pub open spec fn register_all(module: TargetModuleView, functions: Seq<MirFunctionView>) -> Result<
    TargetModuleView,
    CodeGenErrorView,
>
    decreases functions.len(),
{
    if functions.len() == 0 {
        Ok(module)
    } else {
        match register_all(module, functions.drop_last()) {
            Err(e) => Err(e),
            Ok(before_last) => register(before_last, functions.last()),
        }
    }
}

proof fn lemma_register_all_error_stays(
    module: TargetModuleView,
    functions: Seq<MirFunctionView>,
    k: int,
    n: int,
)
    requires
        0 <= k <= n <= functions.len(),
        register_all(module, functions.take(k)) is Err,
    ensures
        register_all(module, functions.take(n)) == register_all(module, functions.take(k)),
    decreases n - k,
{
    if k < n {
        lemma_register_all_error_stays(module, functions, k, n - 1);
        assert(functions.take(n).drop_last() =~= functions.take(n - 1));
    }
}

/// Registers the translation of one function in a module. On an error the
/// module is as it was.
pub fn add_function(module: &mut TargetModule, mir_func: &MirFunction) -> (result: Result<
    (),
    CodeGenError,
>)
    ensures
        match register(old(module)@, mir_func@) {
            Ok(next) => result is Ok && final(module)@ == next,
            Err(e) => result matches Err(err) && err@ == e && final(module)@ == old(module)@,
        },
{
    if module.declares(&mir_func.name) {
        let text = String::from_str("duplicate function: ").concat(mir_func.name.as_str());
        return Err(CodeGenError::GenerationFailed(text));
    }
    match lower_function(mir_func) {
        Ok(function) => {
            module.functions.push(function);
            assert(final(module)@.functions =~= old(module)@.functions.push(function@));
            Ok(())
        },
        Err(fault) => Err(CodeGenError::Internal(fault)),
    }
}

/// The name of every module that this backend generates.
pub open spec fn module_name() -> Seq<char> {
    "emerald_module"@
}

/// The target that a new code generator generates for.
pub open spec fn default_triple() -> Seq<char> {
    "x86_64-unknown-linux-gnu"@
}

/// What the code generator says when it is asked for a second module.
pub open spec fn handed_over_message() -> Seq<char> {
    "the module was already handed over"@
}

/// The code generator of the native-code backend. It owns the module it
/// builds until it hands the module over, once, as the payload of the result
/// of a generation; after that it holds none.
pub struct LlvmCodeGen {
    module: Option<TargetModule>,
    opt_level: OptimizationLevel,
    target_triple: String,
}

/// What an [`LlvmCodeGen`] is, as a mathematical value.
pub struct LlvmCodeGenView {
    pub module: Option<TargetModuleView>,
    pub opt_level: OptimizationLevel,
    pub target_triple: Seq<char>,
}

impl View for LlvmCodeGen {
    type V = LlvmCodeGenView;

    closed spec fn view(&self) -> LlvmCodeGenView {
        LlvmCodeGenView {
            module: match self.module {
                Some(m) => Some(m@),
                None => None,
            },
            opt_level: self.opt_level,
            target_triple: self.target_triple@,
        }
    }
}

/// What a generation from the mid-level form does: the generator before,
/// the input, the generator after and the result.
///
/// A generator that holds no module fails and stays as it is. Otherwise the
/// functions are registered in order. If all are, the result is a module
/// whose payload is the generator's module with them, for the generator's
/// target and level, and the generator holds no module any more. If one is
/// not, the result is its error and the generator is as it was.
pub open spec fn generation(
    before: LlvmCodeGenView,
    mir: Seq<MirFunctionView>,
    after: LlvmCodeGenView,
    result: Result<Module, CodeGenError>,
) -> bool {
    match before.module {
        None => {
            &&& result matches Err(CodeGenError::GenerationFailed(m))
            &&& m@ == handed_over_message()
            &&& after == before
        },
        Some(module) => match register_all(module, mir) {
            Err(e) => {
                &&& result matches Err(err)
                &&& err@ == e
                &&& after == before
            },
            Ok(full) => {
                &&& result matches Ok(out)
                &&& out@ == (ModuleView {
                    name: module_name(),
                    data: Some(
                        ModuleDataView::Llvm(
                            LlvmModuleView {
                                module: TargetModuleView {
                                    target_triple: before.target_triple,
                                    ..full
                                },
                                opt_level: before.opt_level,
                                passes: Seq::empty(),
                            },
                        ),
                    ),
                })
                &&& after == (LlvmCodeGenView { module: None, ..before })
            },
        },
    }
}

impl LlvmCodeGen {
    /// A generator with an empty module, for the default target, at the
    /// default level.
    pub fn new() -> (generator: Self)
        ensures
            generator@ == (LlvmCodeGenView {
                module: Some(
                    TargetModuleView {
                        name: module_name(),
                        target_triple: default_triple(),
                        functions: Seq::empty(),
                    },
                ),
                opt_level: OptimizationLevel::Default,
                target_triple: default_triple(),
            }),
    {
        let module = TargetModule {
            name: String::from_str("emerald_module"),
            target_triple: Self::default_target_triple(),
            functions: Vec::new(),
        };
        assert(module@.functions =~= Seq::empty());
        Self {
            module: Some(module),
            opt_level: OptimizationLevel::Default,
            target_triple: Self::default_target_triple(),
        }
    }

    /// The target that a generator generates for unless it is told another.
    pub fn default_target_triple() -> (triple: String)
        ensures
            triple@ == default_triple(),
    {
        String::from_str("x86_64-unknown-linux-gnu")
    }

    /// Translates one function and registers it in the generator's module.
    /// On an error the generator is as it was.
    pub fn translate_function(&mut self, mir_func: &MirFunction) -> (result: Result<
        (),
        CodeGenError,
    >)
        ensures
            match old(self)@.module {
                None => {
                    &&& result matches Err(CodeGenError::GenerationFailed(m))
                    &&& m@ == handed_over_message()
                    &&& final(self)@ == old(self)@
                },
                Some(module) => match register(module, mir_func@) {
                    Ok(next) => result is Ok && final(self)@ == (LlvmCodeGenView {
                        module: Some(next),
                        ..old(self)@
                    }),
                    Err(e) => result matches Err(err) && err@ == e && final(self)@ == old(self)@,
                },
            },
    {
        let mut module = match self.module.take() {
            Some(m) => m,
            None => {
                return Err(
                    CodeGenError::GenerationFailed(
                        String::from_str("the module was already handed over"),
                    ),
                );
            },
        };
        let result = add_function(&mut module, mir_func);
        self.module = Some(module);
        result
    }

    /// The module that the generator holds: none once it was handed over.
    pub fn get_module(&self) -> (module: Option<&TargetModule>)
        ensures
            match module {
                Some(m) => self@.module == Some(m@),
                None => self@.module is None,
            },
    {
        self.module.as_ref()
    }

    /// The level that the generator's module asks for.
    pub fn optimization_level(&self) -> (level: OptimizationLevel)
        ensures
            level == self@.opt_level,
    {
        self.opt_level
    }

    /// The target that the generator generates for.
    pub fn target_triple(&self) -> (triple: &String)
        ensures
            triple@ == self@.target_triple,
    {
        &self.target_triple
    }
}

impl CodeGen for LlvmCodeGen {
    /// This backend translates the mid-level form only.
    open spec fn supports(&self, shape: BackendInputType) -> bool {
        shape == BackendInputType::Mir
    }

    /// Nothing: this backend does not translate the high-level form.
    open spec fn from_hir(
        before: Self,
        hir: Seq<Hir>,
        after: Self,
        result: Result<Module, CodeGenError>,
    ) -> bool {
        false
    }

    /// See [`generation`].
    open spec fn from_mir(
        before: Self,
        mir: Seq<MirFunction>,
        after: Self,
        result: Result<Module, CodeGenError>,
    ) -> bool {
        generation(before@, function_views(mir), after@, result)
    }

    /// Translates the functions, in order, into the generator's module and
    /// hands the module over as the payload of the result. See
    /// [`generation`].
    fn generate_from_mir(&mut self, mir: &[MirFunction]) -> (result: Result<Module, CodeGenError>)
        ensures
            generation(old(self)@, function_views(mir@), final(self)@, result),
    {
        let mut module = match self.module.take() {
            Some(m) => m,
            None => {
                return Err(
                    CodeGenError::GenerationFailed(
                        String::from_str("the module was already handed over"),
                    ),
                );
            },
        };
        let ghost first = module@;
        let ghost functions = function_views(mir@);
        let registered: usize = module.functions.len();
        let mut i: usize = 0;
        assert(functions.take(0) =~= Seq::<MirFunctionView>::empty());
        while i < mir.len()
            invariant
                functions == function_views(mir@),
                i <= mir@.len(),
                registered == first.functions.len(),
                module.functions@.len() >= registered,
                module@.functions.take(registered as int) == first.functions,
                module@.name == first.name,
                module@.target_triple == first.target_triple,
                self.module is None,
                self.opt_level == old(self).opt_level,
                self.target_triple == old(self).target_triple,
                old(self)@.module == Some(first),
                register_all(first, functions.take(i as int)) == Ok::<
                    TargetModuleView,
                    CodeGenErrorView,
                >(module@),
            decreases mir@.len() - i,
        {
            proof {
                assert(functions.take(i + 1).drop_last() =~= functions.take(i as int));
                assert(functions.take(i + 1).last() == mir@[i as int]@);
            }
            let ghost before = module@;
            match add_function(&mut module, &mir[i]) {
                Ok(()) => {
                    assert(module@.functions.take(registered as int) =~= before.functions.take(
                        registered as int,
                    ));
                },
                Err(e) => {
                    proof {
                        lemma_register_all_error_stays(
                            first,
                            functions,
                            i + 1,
                            functions.len() as int,
                        );
                        assert(functions.take(functions.len() as int) =~= functions);
                    }
                    module.functions.truncate(registered);
                    assert(module@.functions =~= first.functions);
                    self.module = Some(module);
                    return Err(e);
                },
            }
            i = i + 1;
        }
        proof {
            assert(functions.take(i as int) =~= functions);
        }
        module.target_triple = self.target_triple.clone();
        let wrapper = LlvmModuleWrapper { module, opt_level: self.opt_level, passes: Vec::new() };
        Ok(Module::with_data(String::from_str("emerald_module"), ModuleData::Llvm(wrapper)))
    }

    /// Refuses the high-level form and translates the mid-level form.
    fn generate(&mut self, input: BackendInput) -> (result: Result<Module, CodeGenError>)
        ensures
            match input {
                BackendInput::Hir(_) => refuses(result, BackendInputType::Hir) && final(self)@
                    == old(self)@,
                BackendInput::Mir(mir) => generation(
                    old(self)@,
                    function_views(mir@),
                    final(self)@,
                    result,
                ),
            },
    {
        match input {
            BackendInput::Hir(hir) => self.generate_from_hir(hir.as_slice()),
            BackendInput::Mir(mir) => self.generate_from_mir(mir.as_slice()),
        }
    }

    /// Sets the level that the next generated module asks for.
    fn set_optimization_level(&mut self, level: OptimizationLevel)
        ensures
            final(self)@ == (LlvmCodeGenView { opt_level: level, ..old(self)@ }),
    {
        self.opt_level = level;
    }

    /// Sets the target that the next generated module is for.
    fn set_target_triple(&mut self, triple: String)
        ensures
            final(self)@ == (LlvmCodeGenView { target_triple: triple@, ..old(self)@ }),
    {
        self.target_triple = triple;
    }

    /// This backend prefers the mid-level form.
    fn preferred_input(&self) -> (shape: BackendInputType)
        ensures
            shape == BackendInputType::Mir,
    {
        BackendInputType::Mir
    }
}

/// Two functions differ at most in the instructions of their blocks: name,
/// signature, number of blocks and labels agree.
pub open spec fn same_frame(a: TargetFunctionView, b: TargetFunctionView) -> bool {
    &&& a.name == b.name
    &&& a.ret == b.ret
    &&& a.params == b.params
    &&& a.blocks.len() == b.blocks.len()
    &&& forall|i: int| 0 <= i < a.blocks.len() ==> (#[trigger] a.blocks[i]).label == b.blocks[i].label
}

proof fn lemma_step_keeps_frame(inst: InstructionView, state: TranslationState, blocks: Map<usize, nat>)
    requires
        state.builder.wf(),
        step(inst, state, blocks) is Ok,
    ensures
        ({
            let next = step(inst, state, blocks)->Ok_0;
            &&& next.builder.position == state.builder.position
            &&& same_frame(next.builder.function, state.builder.function)
        }),
{
    reveal(step);
}

proof fn lemma_run_keeps_frame(
    insts: Seq<InstructionView>,
    state: TranslationState,
    blocks: Map<usize, nat>,
)
    requires
        state.builder.wf(),
        run(insts, state, blocks) is Ok,
    ensures
        ({
            let end = run(insts, state, blocks)->Ok_0;
            &&& end.builder.position == state.builder.position
            &&& same_frame(end.builder.function, state.builder.function)
        }),
    decreases insts.len(),
{
    if insts.len() > 0 {
        lemma_run_keeps_frame(insts.drop_last(), state, blocks);
        lemma_step_keeps_frame(insts.last(), run(insts.drop_last(), state, blocks)->Ok_0, blocks);
    }
}

proof fn lemma_run_blocks_keeps_frame(
    blocks: Seq<BasicBlockView>,
    state: TranslationState,
    block_map: Map<usize, nat>,
)
    requires
        blocks.len() <= state.builder.function.blocks.len(),
        run_blocks(blocks, state, block_map) is Ok,
    ensures
        same_frame(run_blocks(blocks, state, block_map)->Ok_0.builder.function, state.builder.function),
    decreases blocks.len(),
{
    if blocks.len() > 0 {
        lemma_run_blocks_keeps_frame(blocks.drop_last(), state, block_map);
        let before_last = run_blocks(blocks.drop_last(), state, block_map)->Ok_0;
        let positioned = TranslationState {
            builder: before_last.builder.at((blocks.len() - 1) as nat),
            ..before_last
        };
        lemma_run_keeps_frame(blocks.last().instructions, positioned, block_map);
    }
}

/// Translation keeps the shape of a function.
///
/// The target function has the name of its source, one block for each block
/// of the source, in the same order and labelled by position, and one
/// parameter for each parameter of the source, in the same order, each of
/// the lowered type. It returns the lowered return type, or nothing where the
/// source declares no return type.
pub proof fn lemma_translation_keeps_shape(f: MirFunctionView)
    requires
        translated(f) is Ok,
    ensures
        ({
            let t = translated(f)->Ok_0;
            &&& t.name == f.name
            &&& t.blocks.len() == f.basic_blocks.len()
            &&& forall|b: int|
                0 <= b < t.blocks.len() ==> (#[trigger] t.blocks[b]).label == block_label_text(
                    b as nat,
                )
            &&& t.params.len() == f.params.len()
            &&& forall|i: int|
                0 <= i < t.params.len() ==> #[trigger] t.params[i] == lower_type(f.params[i].type_)
            &&& t.ret == match f.return_type {
                Some(ty) => lower_type(ty),
                None => TargetTypeView::Void,
            }
        }),
{
    if f.basic_blocks.len() > 0 {
        lemma_run_blocks_keeps_frame(
            f.basic_blocks,
            initial_state(f),
            identity_block_map(f.basic_blocks.len()),
        );
    }
}

/// Registration adds one function for each function of the source, in
/// order, after the functions that were registered before, and leaves those
/// as they were.
pub proof fn lemma_one_function_each(module: TargetModuleView, functions: Seq<MirFunctionView>)
    requires
        register_all(module, functions) is Ok,
    ensures
        ({
            let full = register_all(module, functions)->Ok_0;
            &&& full.name == module.name
            &&& full.functions.len() == module.functions.len() + functions.len()
            &&& forall|i: int|
                0 <= i < module.functions.len() ==> #[trigger] full.functions[i]
                    == module.functions[i]
            &&& forall|i: int|
                0 <= i < functions.len() ==> translated(#[trigger] functions[i]) == Ok::<
                    TargetFunctionView,
                    InternalError,
                >(full.functions[module.functions.len() + i])
        }),
    decreases functions.len(),
{
    if functions.len() > 0 {
        lemma_one_function_each(module, functions.drop_last());
        let before_last = register_all(module, functions.drop_last())->Ok_0;
        let full = register_all(module, functions)->Ok_0;
        assert forall|i: int| 0 <= i < functions.len() implies translated(
            #[trigger] functions[i],
        ) == Ok::<TargetFunctionView, InternalError>(
            full.functions[module.functions.len() + i],
        ) by {
            if i < functions.len() - 1 {
                assert(functions.drop_last()[i] == functions[i]);
            }
        }
    }
}

/// No two functions of a module that registration made bear one name, if
/// none did before.
pub proof fn lemma_names_stay_distinct(module: TargetModuleView, functions: Seq<MirFunctionView>)
    requires
        register_all(module, functions) is Ok,
        forall|i: int, j: int|
            0 <= i < j < module.functions.len() ==> (#[trigger] module.functions[i]).name != (
            #[trigger] module.functions[j]).name,
    ensures
        ({
            let full = register_all(module, functions)->Ok_0;
            forall|i: int, j: int|
                0 <= i < j < full.functions.len() ==> (#[trigger] full.functions[i]).name != (
                #[trigger] full.functions[j]).name
        }),
    decreases functions.len(),
{
    if functions.len() > 0 {
        lemma_names_stay_distinct(module, functions.drop_last());
        let before_last = register_all(module, functions.drop_last())->Ok_0;
        let full = register_all(module, functions)->Ok_0;
        let last = translated(functions.last())->Ok_0;
        lemma_translation_keeps_shape(functions.last());
        assert forall|i: int, j: int| 0 <= i < j < full.functions.len() implies (
        #[trigger] full.functions[i]).name != (#[trigger] full.functions[j]).name by {
            if j == full.functions.len() - 1 {
                assert(full.functions[i] == before_last.functions[i]);
            } else {
                assert(full.functions[i] == before_last.functions[i]);
                assert(full.functions[j] == before_last.functions[j]);
            }
        }
    }
}

/// What is bound stays bound to the end of a run of instructions.
pub proof fn lemma_run_keeps_bindings(
    insts: Seq<InstructionView>,
    state: TranslationState,
    blocks: Map<usize, nat>,
)
    requires
        run(insts, state, blocks) is Ok,
    ensures
        forall|id: usize|
            state.env.contains_key(id) ==> run(insts, state, blocks)->Ok_0.env.contains_key(id),
        forall|id: usize|
            state.env.contains_key(id) && (forall|i: int|
                0 <= i < insts.len() ==> dest_local(#[trigger] insts[i]) != Some(Local { id }))
                ==> run(insts, state, blocks)->Ok_0.env[id] == state.env[id],
    decreases insts.len(),
{
    if insts.len() > 0 {
        let front = insts.drop_last();
        lemma_run_keeps_bindings(front, state, blocks);
        let before_last = run(front, state, blocks)->Ok_0;
        lemma_destination_is_bound(insts.last(), before_last, blocks);
        let end = run(insts, state, blocks)->Ok_0;
        assert forall|id: usize|
            state.env.contains_key(id) && (forall|i: int|
                0 <= i < insts.len() ==> dest_local(#[trigger] insts[i]) != Some(
                    Local { id },
                )) implies end.env[id] == state.env[id] by {
            assert forall|i: int| 0 <= i < front.len() implies dest_local(#[trigger] front[i])
                != Some(Local { id }) by {
                assert(front[i] == insts[i]);
            }
            assert(dest_local(insts[insts.len() - 1]) != Some(Local { id }));
        }
    }
}

/// What is bound stays bound from block to block: the value environment
/// belongs to the function, not to a block.
pub proof fn lemma_run_blocks_keeps_bindings(
    blocks: Seq<BasicBlockView>,
    state: TranslationState,
    block_map: Map<usize, nat>,
)
    requires
        run_blocks(blocks, state, block_map) is Ok,
    ensures
        forall|id: usize|
            state.env.contains_key(id) ==> run_blocks(
                blocks,
                state,
                block_map,
            )->Ok_0.env.contains_key(id),
    decreases blocks.len(),
{
    if blocks.len() > 0 {
        lemma_run_blocks_keeps_bindings(blocks.drop_last(), state, block_map);
        let before_last = run_blocks(blocks.drop_last(), state, block_map)->Ok_0;
        let positioned = TranslationState {
            builder: before_last.builder.at((blocks.len() - 1) as nat),
            ..before_last
        };
        lemma_run_keeps_bindings(blocks.last().instructions, positioned, block_map);
        let end = run(blocks.last().instructions, positioned, block_map)->Ok_0;
        assert forall|id: usize| state.env.contains_key(id) implies end.env.contains_key(id) by {
            assert(before_last.env.contains_key(id));
            assert(positioned.env.contains_key(id));
        }
    }
}

/// A destination, once bound, can be read by every later instruction.
///
/// If an instruction with a destination is translated, and any instructions
/// after it are, then at the end the destination still resolves to a value;
/// and to the very value it was bound to, if no later instruction defines the
/// same local again.
pub proof fn lemma_destination_stays_readable(
    inst: InstructionView,
    later: Seq<InstructionView>,
    state: TranslationState,
    blocks: Map<usize, nat>,
)
    requires
        dest_local(inst) is Some,
        step(inst, state, blocks) is Ok,
        run(later, step(inst, state, blocks)->Ok_0, blocks) is Ok,
    ensures
        ({
            let dest = dest_local(inst)->0;
            let bound = step(inst, state, blocks)->Ok_0;
            let end = run(later, bound, blocks)->Ok_0;
            &&& resolve(OperandView::Local(dest), end.env) is Ok
            &&& (forall|i: int| 0 <= i < later.len() ==> dest_local(#[trigger] later[i]) != Some(dest))
                ==> resolve(OperandView::Local(dest), end.env) == Ok::<
                TargetValueView,
                InternalError,
            >(bound.env[dest.id])
        }),
{
    lemma_destination_is_bound(inst, state, blocks);
    lemma_run_keeps_bindings(later, step(inst, state, blocks)->Ok_0, blocks);
    let dest = dest_local(inst)->0;
    assert(dest == Local { id: dest.id });
}

/// The payload is handed over once.
///
/// A generation that succeeds leaves the generator without a module; the
/// next generation fails for that reason and changes nothing, so no second
/// module can own the payload of the first.
pub proof fn lemma_handed_over_once(
    before: LlvmCodeGenView,
    first_input: Seq<MirFunctionView>,
    between: LlvmCodeGenView,
    first: Result<Module, CodeGenError>,
    second_input: Seq<MirFunctionView>,
    after: LlvmCodeGenView,
    second: Result<Module, CodeGenError>,
)
    requires
        generation(before, first_input, between, first),
        first is Ok,
        generation(between, second_input, after, second),
    ensures
        before.module is Some,
        first->Ok_0@.data is Some,
        between.module is None,
        second matches Err(CodeGenError::GenerationFailed(m)) && m@ == handed_over_message(),
        after == between,
{
}

proof fn lemma_step_emits_in_place(
    inst: InstructionView,
    state: TranslationState,
    blocks: Map<usize, nat>,
)
    requires
        state.builder.wf(),
        step(inst, state, blocks) is Ok,
    ensures
        ({
            let next = step(inst, state, blocks)->Ok_0.builder;
            let p = state.builder.position as int;
            let old_insts = state.builder.function.blocks[p].insts;
            let new_insts = next.function.blocks[p].insts;
            &&& next.position == state.builder.position
            &&& next.function.blocks.len() == state.builder.function.blocks.len()
            &&& forall|j: int|
                0 <= j < next.function.blocks.len() && j != p ==> #[trigger] next.function.blocks[j]
                    == state.builder.function.blocks[j]
            &&& inst.is_terminator() ==> new_insts == old_insts.push(new_insts.last())
                && new_insts.last().is_terminator()
            &&& !inst.is_terminator() ==> new_insts == old_insts || (new_insts == old_insts.push(
                new_insts.last(),
            ) && !new_insts.last().is_terminator())
        }),
{
    reveal(step);
}

proof fn lemma_run_without_terminators(
    insts: Seq<InstructionView>,
    state: TranslationState,
    blocks: Map<usize, nat>,
)
    requires
        state.builder.wf(),
        run(insts, state, blocks) is Ok,
        forall|i: int| 0 <= i < insts.len() ==> !(#[trigger] insts[i]).is_terminator(),
    ensures
        ({
            let end = run(insts, state, blocks)->Ok_0.builder;
            let p = state.builder.position as int;
            let old_insts = state.builder.function.blocks[p].insts;
            let new_insts = end.function.blocks[p].insts;
            &&& end.position == state.builder.position
            &&& end.function.blocks.len() == state.builder.function.blocks.len()
            &&& forall|j: int|
                0 <= j < end.function.blocks.len() && j != p ==> #[trigger] end.function.blocks[j]
                    == state.builder.function.blocks[j]
            &&& new_insts.len() >= old_insts.len()
            &&& new_insts.take(old_insts.len() as int) == old_insts
            &&& forall|k: int|
                old_insts.len() <= k < new_insts.len() ==> !(#[trigger] new_insts[k]).is_terminator()
        }),
    decreases insts.len(),
{
    let p = state.builder.position as int;
    let old_insts = state.builder.function.blocks[p].insts;
    if insts.len() == 0 {
        assert(old_insts.take(old_insts.len() as int) =~= old_insts);
    } else {
        let front = insts.drop_last();
        assert forall|i: int| 0 <= i < front.len() implies !(#[trigger] front[i]).is_terminator() by {
            assert(front[i] == insts[i]);
        }
        lemma_run_without_terminators(front, state, blocks);
        let middle = run(front, state, blocks)->Ok_0;
        assert(!insts[insts.len() - 1].is_terminator());
        lemma_step_emits_in_place(insts.last(), middle, blocks);
        let mid_insts = middle.builder.function.blocks[p].insts;
        let new_insts = run(insts, state, blocks)->Ok_0.builder.function.blocks[p].insts;
        assert(new_insts.take(old_insts.len() as int) =~= mid_insts.take(old_insts.len() as int));
    }
}

proof fn lemma_run_terminated_block(
    insts: Seq<InstructionView>,
    state: TranslationState,
    blocks: Map<usize, nat>,
)
    requires
        state.builder.wf(),
        run(insts, state, blocks) is Ok,
        (BasicBlockView { instructions: insts }).well_terminated(),
        state.builder.function.blocks[state.builder.position as int].insts.len() == 0,
    ensures
        ({
            let end = run(insts, state, blocks)->Ok_0.builder;
            let p = state.builder.position as int;
            &&& end.position == state.builder.position
            &&& end.function.blocks.len() == state.builder.function.blocks.len()
            &&& forall|j: int|
                0 <= j < end.function.blocks.len() && j != p ==> #[trigger] end.function.blocks[j]
                    == state.builder.function.blocks[j]
            &&& end.function.blocks[p].well_terminated()
        }),
{
    let p = state.builder.position as int;
    let front = insts.drop_last();
    assert forall|i: int| 0 <= i < front.len() implies !(#[trigger] front[i]).is_terminator() by {
        assert(front[i] == insts[i]);
    }
    lemma_run_without_terminators(front, state, blocks);
    let middle = run(front, state, blocks)->Ok_0;
    lemma_step_emits_in_place(insts.last(), middle, blocks);
    let mid_insts = middle.builder.function.blocks[p].insts;
    let end_insts = run(insts, state, blocks)->Ok_0.builder.function.blocks[p].insts;
    assert forall|i: int| 0 <= i < end_insts.len() - 1 implies !(
    #[trigger] end_insts[i]).is_terminator() by {
        assert(end_insts[i] == mid_insts[i]);
    }
}

proof fn lemma_run_blocks_terminated(
    blocks: Seq<BasicBlockView>,
    state: TranslationState,
    block_map: Map<usize, nat>,
)
    requires
        blocks.len() <= state.builder.function.blocks.len(),
        run_blocks(blocks, state, block_map) is Ok,
        forall|b: int| 0 <= b < blocks.len() ==> (#[trigger] blocks[b]).well_terminated(),
        forall|b: int|
            0 <= b < state.builder.function.blocks.len() ==> (
            #[trigger] state.builder.function.blocks[b]).insts.len() == 0,
    ensures
        ({
            let end = run_blocks(blocks, state, block_map)->Ok_0.builder.function;
            &&& end.blocks.len() == state.builder.function.blocks.len()
            &&& forall|b: int| 0 <= b < blocks.len() ==> (#[trigger] end.blocks[b]).well_terminated()
            &&& forall|b: int|
                blocks.len() <= b < end.blocks.len() ==> (#[trigger] end.blocks[b]).insts.len() == 0
        }),
    decreases blocks.len(),
{
    if blocks.len() > 0 {
        let front = blocks.drop_last();
        assert forall|b: int| 0 <= b < front.len() implies (#[trigger] front[b]).well_terminated() by {
            assert(front[b] == blocks[b]);
        }
        lemma_run_blocks_terminated(front, state, block_map);
        let before_last = run_blocks(front, state, block_map)->Ok_0;
        let last = (blocks.len() - 1) as nat;
        let positioned = TranslationState { builder: before_last.builder.at(last), ..before_last };
        assert(blocks[blocks.len() - 1].well_terminated());
        assert(positioned.builder.function.blocks[last as int].insts.len() == 0);
        lemma_run_terminated_block(blocks.last().instructions, positioned, block_map);
        let end = run_blocks(blocks, state, block_map)->Ok_0.builder.function;
        assert forall|b: int| 0 <= b < blocks.len() implies (#[trigger] end.blocks[b]).well_terminated() by {
            if b < last {
                assert(end.blocks[b] == before_last.builder.function.blocks[b]);
            }
        }
        assert forall|b: int| blocks.len() <= b < end.blocks.len() implies (
        #[trigger] end.blocks[b]).insts.len() == 0 by {
            assert(end.blocks[b] == before_last.builder.function.blocks[b]);
        }
    }
}

/// Translation keeps blocks terminated.
///
/// Translation does not ask that a block of its input ends with a
/// terminator. Where every block of the source does, and holds no other
/// terminator, every block of the target function ends with a terminator
/// and holds no other.
pub proof fn lemma_terminated_blocks_stay_terminated(f: MirFunctionView)
    requires
        translated(f) is Ok,
        f.well_terminated(),
    ensures
        forall|b: int|
            0 <= b < translated(f)->Ok_0.blocks.len() ==> (#[trigger] translated(
                f,
            )->Ok_0.blocks[b]).well_terminated(),
{
    if f.basic_blocks.len() > 0 {
        lemma_run_blocks_terminated(
            f.basic_blocks,
            initial_state(f),
            identity_block_map(f.basic_blocks.len()),
        );
    }
}

/// The state in which instruction `i` of block `b` is translated: after the
/// blocks before `b` and the instructions of `b` before `i`.
pub open spec fn state_at(f: MirFunctionView, b: int, i: int) -> Result<
    TranslationState,
    InternalError,
>
    recommends
        0 <= b < f.basic_blocks.len(),
        0 <= i <= f.basic_blocks[b].instructions.len(),
{
    let block_map = identity_block_map(f.basic_blocks.len());
    match run_blocks(f.basic_blocks.take(b), initial_state(f), block_map) {
        Err(fault) => Err(fault),
        Ok(before) => run(
            f.basic_blocks[b].instructions.take(i),
            TranslationState { builder: before.builder.at(b as nat), ..before },
            block_map,
        ),
    }
}

/// Whether one place in a function comes before another: in an earlier
/// block, or earlier in the same block.
pub open spec fn comes_before(b: int, i: int, later_b: int, later_i: int) -> bool {
    b < later_b || (b == later_b && i < later_i)
}

proof fn lemma_run_prefix_is_fine(
    insts: Seq<InstructionView>,
    state: TranslationState,
    blocks: Map<usize, nat>,
    k: int,
)
    requires
        0 <= k <= insts.len(),
        run(insts, state, blocks) is Ok,
    ensures
        run(insts.take(k), state, blocks) is Ok,
{
    if run(insts.take(k), state, blocks) is Err {
        lemma_run_fault_stays(insts, state, blocks, k, insts.len() as int);
        assert(insts.take(insts.len() as int) =~= insts);
    }
}

proof fn lemma_run_blocks_prefix_is_fine(
    blocks: Seq<BasicBlockView>,
    state: TranslationState,
    block_map: Map<usize, nat>,
    k: int,
)
    requires
        0 <= k <= blocks.len(),
        run_blocks(blocks, state, block_map) is Ok,
    ensures
        run_blocks(blocks.take(k), state, block_map) is Ok,
{
    if run_blocks(blocks.take(k), state, block_map) is Err {
        lemma_run_blocks_fault_stays(blocks, state, block_map, k, blocks.len() as int);
        assert(blocks.take(blocks.len() as int) =~= blocks);
    }
}

proof fn lemma_state_at_is_fine(f: MirFunctionView, b: int, i: int)
    requires
        translated(f) is Ok,
        0 <= b < f.basic_blocks.len(),
        0 <= i <= f.basic_blocks[b].instructions.len(),
    ensures
        state_at(f, b, i) is Ok,
        run_blocks(
            f.basic_blocks.take(b),
            initial_state(f),
            identity_block_map(f.basic_blocks.len()),
        ) is Ok,
        state_at(f, b, f.basic_blocks[b].instructions.len() as int) == run_blocks(
            f.basic_blocks.take(b + 1),
            initial_state(f),
            identity_block_map(f.basic_blocks.len()),
        ),
{
    let block_map = identity_block_map(f.basic_blocks.len());
    let start = initial_state(f);
    lemma_run_blocks_prefix_is_fine(f.basic_blocks, start, block_map, b);
    lemma_run_blocks_prefix_is_fine(f.basic_blocks, start, block_map, b + 1);
    assert(f.basic_blocks.take(b + 1).drop_last() =~= f.basic_blocks.take(b));
    assert(f.basic_blocks.take(b + 1).last() == f.basic_blocks[b]);
    let insts = f.basic_blocks[b].instructions;
    assert(insts.take(insts.len() as int) =~= insts);
    let before = run_blocks(f.basic_blocks.take(b), start, block_map)->Ok_0;
    lemma_run_prefix_is_fine(
        insts,
        TranslationState { builder: before.builder.at(b as nat), ..before },
        block_map,
        i,
    );
}

proof fn lemma_bindings_grow_in_a_block(
    insts: Seq<InstructionView>,
    state: TranslationState,
    blocks: Map<usize, nat>,
    k: int,
    n: int,
    id: usize,
)
    requires
        0 <= k <= n <= insts.len(),
        run(insts.take(n), state, blocks) is Ok,
        run(insts.take(k), state, blocks) is Ok,
        run(insts.take(k), state, blocks)->Ok_0.env.contains_key(id),
    ensures
        run(insts.take(n), state, blocks)->Ok_0.env.contains_key(id),
    decreases n - k,
{
    if k < n {
        assert(insts.take(n).drop_last() =~= insts.take(n - 1));
        lemma_bindings_grow_in_a_block(insts, state, blocks, k, n - 1, id);
        lemma_destination_is_bound(
            insts.take(n).last(),
            run(insts.take(n - 1), state, blocks)->Ok_0,
            blocks,
        );
    }
}

proof fn lemma_bindings_grow_from_block_to_block(
    blocks: Seq<BasicBlockView>,
    state: TranslationState,
    block_map: Map<usize, nat>,
    k: int,
    n: int,
    id: usize,
)
    requires
        0 <= k <= n <= blocks.len(),
        run_blocks(blocks.take(n), state, block_map) is Ok,
        run_blocks(blocks.take(k), state, block_map) is Ok,
        run_blocks(blocks.take(k), state, block_map)->Ok_0.env.contains_key(id),
    ensures
        run_blocks(blocks.take(n), state, block_map)->Ok_0.env.contains_key(id),
    decreases n - k,
{
    if k < n {
        assert(blocks.take(n).drop_last() =~= blocks.take(n - 1));
        lemma_bindings_grow_from_block_to_block(blocks, state, block_map, k, n - 1, id);
        let before = run_blocks(blocks.take(n - 1), state, block_map)->Ok_0;
        let positioned = TranslationState { builder: before.builder.at((n - 1) as nat), ..before };
        lemma_run_keeps_bindings(blocks.take(n).last().instructions, positioned, block_map);
        assert(positioned.env.contains_key(id));
    }
}

/// A destination can be read everywhere later in its function.
///
/// In a function that translation accepts, take an instruction with a
/// destination, at any place, and any later place, in the same block or in a
/// block at a later position. When the instruction at the later place is
/// translated, the destination is bound, so an operand that names it
/// resolves.
pub proof fn lemma_destination_is_readable_later(
    f: MirFunctionView,
    b: int,
    i: int,
    later_b: int,
    later_i: int,
)
    requires
        translated(f) is Ok,
        0 <= b < f.basic_blocks.len(),
        0 <= i < f.basic_blocks[b].instructions.len(),
        0 <= later_b < f.basic_blocks.len(),
        0 <= later_i <= f.basic_blocks[later_b].instructions.len(),
        comes_before(b, i, later_b, later_i),
        dest_local(f.basic_blocks[b].instructions[i]) is Some,
    ensures
        state_at(f, later_b, later_i) is Ok,
        resolve(
            OperandView::Local(dest_local(f.basic_blocks[b].instructions[i])->0),
            state_at(f, later_b, later_i)->Ok_0.env,
        ) is Ok,
{
    let block_map = identity_block_map(f.basic_blocks.len());
    let start = initial_state(f);
    let insts = f.basic_blocks[b].instructions;
    let dest = dest_local(insts[i])->0;
    lemma_state_at_is_fine(f, b, i);
    lemma_state_at_is_fine(f, b, i + 1);
    lemma_state_at_is_fine(f, later_b, later_i);
    let before = run_blocks(f.basic_blocks.take(b), start, block_map)->Ok_0;
    let positioned = TranslationState { builder: before.builder.at(b as nat), ..before };
    assert(insts.take(i + 1).drop_last() =~= insts.take(i));
    assert(insts.take(i + 1).last() == insts[i]);
    lemma_destination_is_bound(insts[i], state_at(f, b, i)->Ok_0, block_map);
    assert(state_at(f, b, i + 1)->Ok_0.env.contains_key(dest.id));
    if b == later_b {
        lemma_bindings_grow_in_a_block(insts, positioned, block_map, i + 1, later_i, dest.id);
    } else {
        lemma_state_at_is_fine(f, b, insts.len() as int);
        lemma_bindings_grow_in_a_block(
            insts,
            positioned,
            block_map,
            i + 1,
            insts.len() as int,
            dest.id,
        );
        assert(state_at(f, b, insts.len() as int)->Ok_0.env.contains_key(dest.id));
        lemma_run_blocks_prefix_is_fine(f.basic_blocks, start, block_map, later_b);
        lemma_bindings_grow_from_block_to_block(
            f.basic_blocks,
            start,
            block_map,
            b + 1,
            later_b,
            dest.id,
        );
        let reached = run_blocks(f.basic_blocks.take(later_b), start, block_map)->Ok_0;
        let at_block = TranslationState {
            builder: reached.builder.at(later_b as nat),
            ..reached
        };
        let later_insts = f.basic_blocks[later_b].instructions;
        lemma_run_keeps_bindings(later_insts.take(later_i), at_block, block_map);
        assert(at_block.env.contains_key(dest.id));
    }
}

} // verus!
