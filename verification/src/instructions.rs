//! Instruction selection: what each instruction of the intermediate
//! representation becomes at the target, family by family.
//!
//! Translating one instruction has at most two effects: one operation goes to
//! the end of the current block, and one local is bound to a value. The
//! functions here state those effects over mathematical values; the
//! executable translators carry them out on a builder and a value
//! environment.

use vstd::prelude::*;
use vstd::string::StrSliceExecFns;
use vstd::utf8::encode_utf8;
use std::collections::HashMap;
use crate::builder::{Builder, BuilderView};
use crate::mir::{Constant, ConstantView, Instruction, InstructionView, Local, Operand, OperandView};
use crate::ports::InternalError;
use crate::target::{
    BinaryOp, IntPredicate, TargetInst, TargetInstView, TargetValue, TargetValueView,
};
use crate::types::{has_generic, lower_type, mir_type_to_llvm_type};

verus! {

/// The value environment: which value each local stands for so far.
pub open spec fn env_view(locals: Map<usize, TargetValue>) -> Map<usize, TargetValueView> {
    Map::new(|id: usize| locals.contains_key(id), |id: usize| locals[id]@)
}

/// The block map: the target block of each block position, as numbers.
pub open spec fn block_map_view(blocks: Map<usize, usize>) -> Map<usize, nat> {
    Map::new(|index: usize| blocks.contains_key(index), |index: usize| blocks[index] as nat)
}

/// The value of a literal.
///
/// Integers and characters are 32 bits wide, truth values one bit. A string
/// is the array of its UTF-8 bytes, which keeps its length; a null is the
/// null pointer to bytes.
pub open spec fn lower_constant(constant: ConstantView) -> TargetValueView {
    match constant {
        ConstantView::Int(i) => TargetValueView::ConstInt { bits: 32, value: i as int },
        ConstantView::Float { bits } => TargetValueView::ConstReal { bits },
        ConstantView::Bool(b) => TargetValueView::ConstInt {
            bits: 1,
            value: if b {
                1
            } else {
                0
            },
        },
        ConstantView::Char(c) => TargetValueView::ConstInt { bits: 32, value: (c as u32) as int },
        ConstantView::String(s) => TargetValueView::ConstString { bytes: encode_utf8(s) },
        ConstantView::Null => TargetValueView::NullPointer,
    }
}

/// The value that an operand stands for.
///
/// A local stands for the value it was bound to; one that was never bound
/// is a fault. A function reference is no value.
pub open spec fn resolve(operand: OperandView, env: Map<usize, TargetValueView>) -> Result<
    TargetValueView,
    InternalError,
> {
    match operand {
        OperandView::Constant(c) => Ok(lower_constant(c)),
        OperandView::Local(l) => if env.contains_key(l.id) {
            Ok(env[l.id])
        } else {
            Err(InternalError::UndefinedLocal { id: l.id })
        },
        OperandView::Function { .. } => Err(InternalError::UnresolvedFunction),
    }
}

/// The target block of a block position; a position without one is a fault.
pub open spec fn lookup_block(index: usize, blocks: Map<usize, nat>) -> Result<
    nat,
    InternalError,
> {
    if blocks.contains_key(index) {
        Ok(blocks[index])
    } else {
        Err(InternalError::MissingBlock { index })
    }
}

/// What the translation of one instruction does.
pub struct Effect {
    /// The operation that goes to the end of the current block.
    pub emitted: Option<TargetInstView>,
    /// The local that is bound, and the value it is bound to.
    pub bound: Option<(usize, TargetValueView)>,
}

/// The value that an effect hands back: the one it binds.
pub open spec fn bound_value(effect: Effect) -> Option<TargetValueView> {
    match effect.bound {
        Some((_, v)) => Some(v),
        None => None,
    }
}

/// The destination and the operands of an arithmetic instruction, with the
/// operation it selects. Division and remainder are signed.
pub open spec fn arithmetic_parts(inst: InstructionView) -> Option<
    (BinaryOp, Local, OperandView, OperandView),
> {
    match inst {
        InstructionView::Add { dest, left, right, .. } => Some((BinaryOp::Add, dest, left, right)),
        InstructionView::Sub { dest, left, right, .. } => Some((BinaryOp::Sub, dest, left, right)),
        InstructionView::Mul { dest, left, right, .. } => Some((BinaryOp::Mul, dest, left, right)),
        InstructionView::Div { dest, left, right, .. } => Some((BinaryOp::SDiv, dest, left, right)),
        InstructionView::Mod { dest, left, right, .. } => Some((BinaryOp::SRem, dest, left, right)),
        _ => None,
    }
}

/// The destination and the operands of a comparison, with the signed
/// predicate it selects.
pub open spec fn comparison_parts(inst: InstructionView) -> Option<
    (IntPredicate, Local, OperandView, OperandView),
> {
    match inst {
        InstructionView::Eq { dest, left, right } => Some((IntPredicate::Eq, dest, left, right)),
        InstructionView::Ne { dest, left, right } => Some((IntPredicate::Ne, dest, left, right)),
        InstructionView::Lt { dest, left, right } => Some((IntPredicate::Slt, dest, left, right)),
        InstructionView::Le { dest, left, right } => Some((IntPredicate::Sle, dest, left, right)),
        InstructionView::Gt { dest, left, right } => Some((IntPredicate::Sgt, dest, left, right)),
        InstructionView::Ge { dest, left, right } => Some((IntPredicate::Sge, dest, left, right)),
        _ => None,
    }
}

/// Whether the instruction is one of `Add`, `Sub`, `Mul`, `Div`, `Mod`.
pub open spec fn is_arithmetic(inst: InstructionView) -> bool {
    arithmetic_parts(inst) is Some
}

/// Whether the instruction is one of `Eq`, `Ne`, `Lt`, `Le`, `Gt`, `Ge`.
pub open spec fn is_comparison(inst: InstructionView) -> bool {
    comparison_parts(inst) is Some
}

/// Whether the instruction is one of `Load`, `Store`, `Alloca`, `Gep`.
pub open spec fn is_memory(inst: InstructionView) -> bool {
    inst is Load || inst is Store || inst is Alloca || inst is Gep
}

/// Whether the instruction is a terminator: `Ret`, `Jump` or `Br`.
pub open spec fn is_control_flow(inst: InstructionView) -> bool {
    inst.is_terminator()
}

/// The effect of a two-operand operation: both operands are resolved, left
/// first; the operation is emitted and its result bound to the destination.
pub open spec fn binary_effect(
    op: BinaryOp,
    dest: Local,
    left: OperandView,
    right: OperandView,
    env: Map<usize, TargetValueView>,
    here: TargetValueView,
) -> Result<Effect, InternalError> {
    match resolve(left, env) {
        Err(e) => Err(e),
        Ok(l) => match resolve(right, env) {
            Err(e) => Err(e),
            Ok(r) => Ok(
                Effect {
                    emitted: Some(TargetInstView::Binary { op, left: l, right: r }),
                    bound: Some((dest.id, here)),
                },
            ),
        },
    }
}

/// The effect of an arithmetic instruction: that of the operation it
/// selects.
pub open spec fn arithmetic_effect(
    inst: InstructionView,
    env: Map<usize, TargetValueView>,
    here: TargetValueView,
) -> Result<Effect, InternalError>
    recommends
        is_arithmetic(inst),
{
    let (op, dest, left, right) = arithmetic_parts(inst)->0;
    binary_effect(op, dest, left, right, env, here)
}

/// The effect of a comparison: both operands are resolved, left first; the
/// comparison is emitted and its result bound to the destination.
pub open spec fn comparison_effect(
    inst: InstructionView,
    env: Map<usize, TargetValueView>,
    here: TargetValueView,
) -> Result<Effect, InternalError>
    recommends
        is_comparison(inst),
{
    let (predicate, dest, left, right) = comparison_parts(inst)->0;
    match resolve(left, env) {
        Err(e) => Err(e),
        Ok(l) => match resolve(right, env) {
            Err(e) => Err(e),
            Ok(r) => Ok(
                Effect {
                    emitted: Some(TargetInstView::Compare { predicate, left: l, right: r }),
                    bound: Some((dest.id, here)),
                },
            ),
        },
    }
}

/// The effect of a memory instruction.
///
/// `Load` reads through the resolved pointer at the lowered type. `Store`
/// writes the resolved source through the address that its destination
/// operand resolves to, and binds nothing. `Alloca` reserves space for the
/// lowered type. `Gep` derives an address from a base and one index.
/// Operands are resolved before the type is lowered.
pub open spec fn memory_effect(
    inst: InstructionView,
    env: Map<usize, TargetValueView>,
    here: TargetValueView,
) -> Result<Effect, InternalError>
    recommends
        is_memory(inst),
{
    match inst {
        InstructionView::Load { dest, source, type_ } => match resolve(source, env) {
            Err(e) => Err(e),
            Ok(pointer) => if has_generic(type_) {
                Err(InternalError::UnsubstitutedGeneric)
            } else {
                Ok(
                    Effect {
                        emitted: Some(TargetInstView::Load { ty: lower_type(type_), pointer }),
                        bound: Some((dest.id, here)),
                    },
                )
            },
        },
        InstructionView::Store { dest, source, .. } => match resolve(dest, env) {
            Err(e) => Err(e),
            Ok(pointer) => match resolve(source, env) {
                Err(e) => Err(e),
                Ok(value) => Ok(
                    Effect { emitted: Some(TargetInstView::Store { value, pointer }), bound: None },
                ),
            },
        },
        InstructionView::Alloca { dest, type_ } => if has_generic(type_) {
            Err(InternalError::UnsubstitutedGeneric)
        } else {
            Ok(
                Effect {
                    emitted: Some(TargetInstView::Alloca { ty: lower_type(type_) }),
                    bound: Some((dest.id, here)),
                },
            )
        },
        InstructionView::Gep { dest, base, index, type_ } => match resolve(base, env) {
            Err(e) => Err(e),
            Ok(b) => match resolve(index, env) {
                Err(e) => Err(e),
                Ok(i) => if has_generic(type_) {
                    Err(InternalError::UnsubstitutedGeneric)
                } else {
                    Ok(
                        Effect {
                            emitted: Some(
                                TargetInstView::Gep { ty: lower_type(type_), base: b, index: i },
                            ),
                            bound: Some((dest.id, here)),
                        },
                    )
                },
            },
        },
        _ => arbitrary(),
    }
}

/// The effect of a terminator.
///
/// `Ret` returns the resolved value, or nothing. `Jump` branches to the
/// target block of its position. `Br` resolves its condition, then its two
/// targets, and branches on the condition. None binds a local.
pub open spec fn control_flow_effect(
    inst: InstructionView,
    env: Map<usize, TargetValueView>,
    blocks: Map<usize, nat>,
) -> Result<Effect, InternalError>
    recommends
        is_control_flow(inst),
{
    match inst {
        InstructionView::Ret { value: Some(v) } => match resolve(v, env) {
            Err(e) => Err(e),
            Ok(value) => Ok(
                Effect { emitted: Some(TargetInstView::Ret { value: Some(value) }), bound: None },
            ),
        },
        InstructionView::Ret { value: None } => Ok(
            Effect { emitted: Some(TargetInstView::Ret { value: None }), bound: None },
        ),
        InstructionView::Jump { target } => match lookup_block(target, blocks) {
            Err(e) => Err(e),
            Ok(t) => Ok(Effect { emitted: Some(TargetInstView::Br { target: t }), bound: None }),
        },
        InstructionView::Br { condition, then_bb, else_bb } => match resolve(condition, env) {
            Err(e) => Err(e),
            Ok(c) => match lookup_block(then_bb, blocks) {
                Err(e) => Err(e),
                Ok(t) => match lookup_block(else_bb, blocks) {
                    Err(e) => Err(e),
                    Ok(f) => Ok(
                        Effect {
                            emitted: Some(
                                TargetInstView::CondBr {
                                    condition: c,
                                    then_block: t,
                                    else_block: f,
                                },
                            ),
                            bound: None,
                        },
                    ),
                },
            },
        },
        _ => arbitrary(),
    }
}

/// The values of the operands, in order, or the fault of the first operand
/// that has one.
pub open spec fn resolve_all(operands: Seq<OperandView>, env: Map<usize, TargetValueView>) -> Result<
    Seq<TargetValueView>,
    InternalError,
>
    decreases operands.len(),
{
    if operands.len() == 0 {
        Ok(Seq::empty())
    } else {
        match resolve_all(operands.drop_last(), env) {
            Err(e) => Err(e),
            Ok(values) => match resolve(operands.last(), env) {
                Err(e) => Err(e),
                Ok(v) => Ok(values.push(v)),
            },
        }
    }
}

/// The target blocks of the positions, in order, or the fault of the first
/// position that has none.
pub open spec fn lookup_all(positions: Seq<usize>, blocks: Map<usize, nat>) -> Result<
    Seq<nat>,
    InternalError,
>
    decreases positions.len(),
{
    if positions.len() == 0 {
        Ok(Seq::empty())
    } else {
        match lookup_all(positions.drop_last(), blocks) {
            Err(e) => Err(e),
            Ok(targets) => match lookup_block(positions.last(), blocks) {
                Err(e) => Err(e),
                Ok(t) => Ok(targets.push(t)),
            },
        }
    }
}

/// The operands of the incoming pairs of a merge.
pub open spec fn incoming_operands(incoming: Seq<(OperandView, usize)>) -> Seq<OperandView> {
    incoming.map_values(|p: (OperandView, usize)| p.0)
}

/// The predecessor positions of the incoming pairs of a merge.
pub open spec fn incoming_positions(incoming: Seq<(OperandView, usize)>) -> Seq<usize> {
    incoming.map_values(|p: (OperandView, usize)| p.1)
}

/// The edges of a merge: one per incoming pair, in order, each the resolved
/// value with the target block of the predecessor. All values are resolved
/// before any predecessor is looked up.
pub open spec fn merge_edges(
    incoming: Seq<(OperandView, usize)>,
    env: Map<usize, TargetValueView>,
    blocks: Map<usize, nat>,
) -> Result<Seq<(TargetValueView, nat)>, InternalError> {
    match resolve_all(incoming_operands(incoming), env) {
        Err(e) => Err(e),
        Ok(values) => match lookup_all(incoming_positions(incoming), blocks) {
            Err(e) => Err(e),
            Ok(targets) => Ok(Seq::new(incoming.len(), |i: int| (values[i], targets[i]))),
        },
    }
}

/// The effect of the remaining instructions.
///
/// `And`, `Or` and `Not` are bitwise. `Copy` binds its destination to the
/// resolved source and emits nothing. `Phi` lowers its type, then emits a
/// merge with one edge per incoming pair. `Call` is not lowered: it emits
/// nothing, and a call with a destination binds it to the placeholder, so
/// that no destination is left unbound.
pub open spec fn other_effect(
    inst: InstructionView,
    env: Map<usize, TargetValueView>,
    blocks: Map<usize, nat>,
    here: TargetValueView,
) -> Result<Effect, InternalError> {
    match inst {
        InstructionView::Call { dest, .. } => Ok(
            Effect {
                emitted: None,
                bound: match dest {
                    Some(d) => Some((d.id, TargetValueView::Placeholder)),
                    None => None,
                },
            },
        ),
        InstructionView::Phi { dest, type_, incoming } => if has_generic(type_) {
            Err(InternalError::UnsubstitutedGeneric)
        } else {
            match merge_edges(incoming, env, blocks) {
                Err(e) => Err(e),
                Ok(edges) => Ok(
                    Effect {
                        emitted: Some(
                            TargetInstView::Phi { ty: lower_type(type_), incoming: edges },
                        ),
                        bound: Some((dest.id, here)),
                    },
                ),
            }
        },
        InstructionView::Copy { dest, source, .. } => match resolve(source, env) {
            Err(e) => Err(e),
            Ok(v) => Ok(Effect { emitted: None, bound: Some((dest.id, v)) }),
        },
        InstructionView::And { dest, left, right } => binary_effect(
            BinaryOp::And,
            dest,
            left,
            right,
            env,
            here,
        ),
        InstructionView::Or { dest, left, right } => binary_effect(
            BinaryOp::Or,
            dest,
            left,
            right,
            env,
            here,
        ),
        InstructionView::Not { dest, operand } => match resolve(operand, env) {
            Err(e) => Err(e),
            Ok(v) => Ok(
                Effect {
                    emitted: Some(TargetInstView::Not { operand: v }),
                    bound: Some((dest.id, here)),
                },
            ),
        },
        _ => arbitrary(),
    }
}

/// The effect of any instruction: that of its family. The family follows
/// from the instruction's tag alone.
pub open spec fn effect(
    inst: InstructionView,
    env: Map<usize, TargetValueView>,
    blocks: Map<usize, nat>,
    here: TargetValueView,
) -> Result<Effect, InternalError> {
    if is_arithmetic(inst) {
        arithmetic_effect(inst, env, here)
    } else if is_comparison(inst) {
        comparison_effect(inst, env, here)
    } else if is_memory(inst) {
        memory_effect(inst, env, here)
    } else if is_control_flow(inst) {
        control_flow_effect(inst, env, blocks)
    } else {
        other_effect(inst, env, blocks, here)
    }
}

/// The local that an instruction defines, if it defines one.
pub open spec fn dest_local(inst: InstructionView) -> Option<Local> {
    match inst {
        InstructionView::Add { dest, .. } => Some(dest),
        InstructionView::Sub { dest, .. } => Some(dest),
        InstructionView::Mul { dest, .. } => Some(dest),
        InstructionView::Div { dest, .. } => Some(dest),
        InstructionView::Mod { dest, .. } => Some(dest),
        InstructionView::Eq { dest, .. } => Some(dest),
        InstructionView::Ne { dest, .. } => Some(dest),
        InstructionView::Lt { dest, .. } => Some(dest),
        InstructionView::Le { dest, .. } => Some(dest),
        InstructionView::Gt { dest, .. } => Some(dest),
        InstructionView::Ge { dest, .. } => Some(dest),
        InstructionView::And { dest, .. } => Some(dest),
        InstructionView::Or { dest, .. } => Some(dest),
        InstructionView::Not { dest, .. } => Some(dest),
        InstructionView::Load { dest, .. } => Some(dest),
        InstructionView::Alloca { dest, .. } => Some(dest),
        InstructionView::Gep { dest, .. } => Some(dest),
        InstructionView::Call { dest, .. } => dest,
        InstructionView::Phi { dest, .. } => Some(dest),
        InstructionView::Copy { dest, .. } => Some(dest),
        InstructionView::Store { .. } => None,
        InstructionView::Ret { .. } => None,
        InstructionView::Jump { .. } => None,
        InstructionView::Br { .. } => None,
    }
}

/// The state that one function's translation carries from instruction to
/// instruction: the builder and the value environment.
pub struct TranslationState {
    pub builder: BuilderView,
    pub env: Map<usize, TargetValueView>,
}

/// The state after an effect has taken place.
pub open spec fn apply(state: TranslationState, effect: Effect) -> TranslationState {
    TranslationState {
        builder: match effect.emitted {
            Some(inst) => state.builder.emit(inst),
            None => state.builder,
        },
        env: match effect.bound {
            Some((id, value)) => state.env.insert(id, value),
            None => state.env,
        },
    }
}

/// The state after one instruction, or the fault that stops the translation.
#[verifier::opaque]
pub open spec fn step(inst: InstructionView, state: TranslationState, blocks: Map<usize, nat>) -> Result<
    TranslationState,
    InternalError,
> {
    match effect(inst, state.env, blocks, state.builder.here()) {
        Ok(e) => Ok(apply(state, e)),
        Err(fault) => Err(fault),
    }
}

/// How a translator leaves the state: changed by the effect, or, on a fault,
/// as it was.
pub open spec fn transition(
    outcome: Result<Effect, InternalError>,
    before: TranslationState,
    after: TranslationState,
) -> bool {
    match outcome {
        Ok(e) => after == apply(before, e),
        Err(_) => after == before,
    }
}

/// What a translator that hands back a value returns: the value that the
/// effect binds, or the fault.
pub open spec fn hands_back(
    outcome: Result<Effect, InternalError>,
    result: Result<Option<TargetValue>, InternalError>,
) -> bool {
    match outcome {
        Ok(e) => result matches Ok(value) && crate::target::optional_value_view(value)
            == bound_value(e),
        Err(fault) => result == Err::<Option<TargetValue>, InternalError>(fault),
    }
}

/// The value of a resolved operand, or the fault.
pub open spec fn value_result_view(result: Result<TargetValue, InternalError>) -> Result<
    TargetValueView,
    InternalError,
> {
    match result {
        Ok(v) => Ok(v@),
        Err(e) => Err(e),
    }
}

/// Makes the value of a literal.
pub fn constant_to_llvm_value(constant: &Constant) -> (value: TargetValue)
    ensures
        value@ == lower_constant(constant@),
{
    match constant {
        Constant::Int(i) => TargetValue::ConstInt { bits: 32, value: *i as i64 },
        Constant::Float { bits } => TargetValue::ConstReal { bits: *bits },
        Constant::Bool(b) => TargetValue::ConstInt {
            bits: 1,
            value: if *b {
                1
            } else {
                0
            },
        },
        Constant::Char(c) => TargetValue::ConstInt { bits: 32, value: (*c as u32) as i64 },
        Constant::String(s) => TargetValue::ConstString { bytes: s.as_str().as_bytes_vec() },
        Constant::Null => TargetValue::NullPointer,
    }
}

/// Resolves an operand against the value environment.
///
/// A constant becomes its value. A local becomes the value it is bound to;
/// a local that is not bound gives `UndefinedLocal`. A function reference
/// gives `UnresolvedFunction`: only the translation of a call resolves one.
pub fn operand_to_llvm_value(operand: &Operand, local_map: &HashMap<usize, TargetValue>) -> (value:
    Result<TargetValue, InternalError>)
    ensures
        value_result_view(value) == resolve(operand@, env_view(local_map@)),
{
    match operand {
        Operand::Constant(c) => Ok(constant_to_llvm_value(c)),
        Operand::Local(local) => match local_map.get(&local.id) {
            Some(v) => Ok(v.clone()),
            None => Err(InternalError::UndefinedLocal { id: local.id }),
        },
        Operand::Function(_) => Err(InternalError::UnresolvedFunction),
    }
}

/// Looks a block position up in the block map. A position that the map does
/// not hold gives `MissingBlock`.
pub fn block_of(index: usize, bb_map: &HashMap<usize, usize>) -> (target: Result<
    usize,
    InternalError,
>)
    ensures
        match lookup_block(index, block_map_view(bb_map@)) {
            Ok(t) => target matches Ok(b) && b == t,
            Err(e) => target == Err::<usize, InternalError>(e),
        },
{
    match bb_map.get(&index) {
        Some(b) => Ok(*b),
        None => Err(InternalError::MissingBlock { index }),
    }
}

/// Binds a local to a value in the value environment. A local that was
/// bound before is bound anew.
pub fn bind(local_map: &mut HashMap<usize, TargetValue>, id: usize, value: TargetValue)
    ensures
        env_view(final(local_map)@) == env_view(old(local_map)@).insert(id, value@),
{
    local_map.insert(id, value);
    assert(env_view(final(local_map)@) =~= env_view(old(local_map)@).insert(id, value@));
}

/// The translation state that a builder and a value environment make.
pub open spec fn state_of(builder: Builder, locals: Map<usize, TargetValue>) -> TranslationState {
    TranslationState { builder: builder@, env: env_view(locals) }
}

fn translate_binary(
    builder: &mut Builder,
    op: BinaryOp,
    dest: &Local,
    left: &Operand,
    right: &Operand,
    local_map: &mut HashMap<usize, TargetValue>,
) -> (result: Result<Option<TargetValue>, InternalError>)
    ensures
        ({
            let outcome = binary_effect(
                op,
                *dest,
                left@,
                right@,
                env_view(old(local_map)@),
                old(builder)@.here(),
            );
            &&& transition(
                outcome,
                state_of(*old(builder), old(local_map)@),
                state_of(*final(builder), final(local_map)@),
            )
            &&& hands_back(outcome, result)
        }),
{
    let l = match operand_to_llvm_value(left, local_map) {
        Ok(v) => v,
        Err(e) => {
            return Err(e);
        },
    };
    let r = match operand_to_llvm_value(right, local_map) {
        Ok(v) => v,
        Err(e) => {
            return Err(e);
        },
    };
    let result = builder.emit(TargetInst::Binary { op, left: l, right: r });
    bind(local_map, dest.id, result.clone());
    Ok(Some(result))
}

/// Translates an arithmetic instruction; leaves any other alone.
///
/// `Add`, `Sub`, `Mul`, `Div` and `Mod` become the signed operation of the
/// same meaning on the two resolved operands, and the result is bound to the
/// destination and handed back. On a fault nothing is emitted or bound. For
/// an instruction of another family the answer is `Ok(None)`.
pub fn translate_arithmetic(
    builder: &mut Builder,
    inst: &Instruction,
    local_map: &mut HashMap<usize, TargetValue>,
) -> (result: Result<Option<TargetValue>, InternalError>)
    ensures
        !is_arithmetic(inst@) ==> result == Ok::<Option<TargetValue>, InternalError>(None)
            && state_of(*final(builder), final(local_map)@) == state_of(
            *old(builder),
            old(local_map)@,
        ),
        is_arithmetic(inst@) ==> ({
            let outcome = arithmetic_effect(
                inst@,
                env_view(old(local_map)@),
                old(builder)@.here(),
            );
            &&& transition(
                outcome,
                state_of(*old(builder), old(local_map)@),
                state_of(*final(builder), final(local_map)@),
            )
            &&& hands_back(outcome, result)
        }),
{
    match inst {
        Instruction::Add { dest, left, right, .. } => translate_binary(
            builder,
            BinaryOp::Add,
            dest,
            left,
            right,
            local_map,
        ),
        Instruction::Sub { dest, left, right, .. } => translate_binary(
            builder,
            BinaryOp::Sub,
            dest,
            left,
            right,
            local_map,
        ),
        Instruction::Mul { dest, left, right, .. } => translate_binary(
            builder,
            BinaryOp::Mul,
            dest,
            left,
            right,
            local_map,
        ),
        Instruction::Div { dest, left, right, .. } => translate_binary(
            builder,
            BinaryOp::SDiv,
            dest,
            left,
            right,
            local_map,
        ),
        Instruction::Mod { dest, left, right, .. } => translate_binary(
            builder,
            BinaryOp::SRem,
            dest,
            left,
            right,
            local_map,
        ),
        _ => Ok(None),
    }
}

fn translate_compare(
    builder: &mut Builder,
    predicate: IntPredicate,
    dest: &Local,
    left: &Operand,
    right: &Operand,
    local_map: &mut HashMap<usize, TargetValue>,
) -> (result: Result<Option<TargetValue>, InternalError>)
    ensures
        ({
            let before = state_of(*old(builder), old(local_map)@);
            let after = state_of(*final(builder), final(local_map)@);
            match resolve(left@, before.env) {
                Err(e) => after == before && result == Err::<Option<TargetValue>, InternalError>(e),
                Ok(l) => match resolve(right@, before.env) {
                    Err(e) => after == before && result == Err::<
                        Option<TargetValue>,
                        InternalError,
                    >(e),
                    Ok(r) => {
                        &&& after == apply(
                            before,
                            Effect {
                                emitted: Some(
                                    TargetInstView::Compare { predicate, left: l, right: r },
                                ),
                                bound: Some((dest.id, before.builder.here())),
                            },
                        )
                        &&& result matches Ok(Some(v))
                        &&& v@ == before.builder.here()
                    },
                },
            }
        }),
{
    let l = match operand_to_llvm_value(left, local_map) {
        Ok(v) => v,
        Err(e) => {
            return Err(e);
        },
    };
    let r = match operand_to_llvm_value(right, local_map) {
        Ok(v) => v,
        Err(e) => {
            return Err(e);
        },
    };
    let result = builder.emit(TargetInst::Compare { predicate, left: l, right: r });
    bind(local_map, dest.id, result.clone());
    Ok(Some(result))
}

/// Translates a comparison; leaves any other instruction alone.
///
/// `Eq`, `Ne`, `Lt`, `Le`, `Gt` and `Ge` become the integer comparison with
/// the signed predicate of the same meaning on the two resolved operands, and
/// the result is bound to the destination and handed back. On a fault nothing
/// is emitted or bound. For an instruction of another family the answer is
/// `Ok(None)`.
pub fn translate_comparison(
    builder: &mut Builder,
    inst: &Instruction,
    local_map: &mut HashMap<usize, TargetValue>,
) -> (result: Result<Option<TargetValue>, InternalError>)
    ensures
        !is_comparison(inst@) ==> result == Ok::<Option<TargetValue>, InternalError>(None)
            && state_of(*final(builder), final(local_map)@) == state_of(
            *old(builder),
            old(local_map)@,
        ),
        is_comparison(inst@) ==> ({
            let outcome = comparison_effect(
                inst@,
                env_view(old(local_map)@),
                old(builder)@.here(),
            );
            &&& transition(
                outcome,
                state_of(*old(builder), old(local_map)@),
                state_of(*final(builder), final(local_map)@),
            )
            &&& hands_back(outcome, result)
        }),
{
    match inst {
        Instruction::Eq { dest, left, right } => translate_compare(
            builder,
            IntPredicate::Eq,
            dest,
            left,
            right,
            local_map,
        ),
        Instruction::Ne { dest, left, right } => translate_compare(
            builder,
            IntPredicate::Ne,
            dest,
            left,
            right,
            local_map,
        ),
        Instruction::Lt { dest, left, right } => translate_compare(
            builder,
            IntPredicate::Slt,
            dest,
            left,
            right,
            local_map,
        ),
        Instruction::Le { dest, left, right } => translate_compare(
            builder,
            IntPredicate::Sle,
            dest,
            left,
            right,
            local_map,
        ),
        Instruction::Gt { dest, left, right } => translate_compare(
            builder,
            IntPredicate::Sgt,
            dest,
            left,
            right,
            local_map,
        ),
        Instruction::Ge { dest, left, right } => translate_compare(
            builder,
            IntPredicate::Sge,
            dest,
            left,
            right,
            local_map,
        ),
        _ => Ok(None),
    }
}

/// Translates a memory instruction; leaves any other alone.
///
/// `Load`, `Alloca` and `Gep` bind their result to the destination and hand
/// it back. `Store` writes through the address that its destination operand
/// resolves to; it has no result, so the answer for it is `Ok(None)`, as it
/// is for an instruction of another family. On a fault nothing is emitted or
/// bound.
pub fn translate_memory(
    builder: &mut Builder,
    inst: &Instruction,
    local_map: &mut HashMap<usize, TargetValue>,
) -> (result: Result<Option<TargetValue>, InternalError>)
    ensures
        !is_memory(inst@) ==> result == Ok::<Option<TargetValue>, InternalError>(None)
            && state_of(*final(builder), final(local_map)@) == state_of(
            *old(builder),
            old(local_map)@,
        ),
        is_memory(inst@) ==> ({
            let outcome = memory_effect(inst@, env_view(old(local_map)@), old(builder)@.here());
            &&& transition(
                outcome,
                state_of(*old(builder), old(local_map)@),
                state_of(*final(builder), final(local_map)@),
            )
            &&& hands_back(outcome, result)
        }),
{
    match inst {
        Instruction::Load { dest, source, type_ } => {
            let pointer = match operand_to_llvm_value(source, local_map) {
                Ok(v) => v,
                Err(e) => {
                    return Err(e);
                },
            };
            let ty = match mir_type_to_llvm_type(type_) {
                Ok(t) => t,
                Err(e) => {
                    return Err(e);
                },
            };
            let result = builder.emit(TargetInst::Load { ty, pointer });
            bind(local_map, dest.id, result.clone());
            Ok(Some(result))
        },
        Instruction::Store { dest, source, .. } => {
            let pointer = match operand_to_llvm_value(dest, local_map) {
                Ok(v) => v,
                Err(e) => {
                    return Err(e);
                },
            };
            let value = match operand_to_llvm_value(source, local_map) {
                Ok(v) => v,
                Err(e) => {
                    return Err(e);
                },
            };
            builder.emit(TargetInst::Store { value, pointer });
            Ok(None)
        },
        Instruction::Alloca { dest, type_ } => {
            let ty = match mir_type_to_llvm_type(type_) {
                Ok(t) => t,
                Err(e) => {
                    return Err(e);
                },
            };
            let result = builder.emit(TargetInst::Alloca { ty });
            bind(local_map, dest.id, result.clone());
            Ok(Some(result))
        },
        Instruction::Gep { dest, base, index, type_ } => {
            let b = match operand_to_llvm_value(base, local_map) {
                Ok(v) => v,
                Err(e) => {
                    return Err(e);
                },
            };
            let i = match operand_to_llvm_value(index, local_map) {
                Ok(v) => v,
                Err(e) => {
                    return Err(e);
                },
            };
            let ty = match mir_type_to_llvm_type(type_) {
                Ok(t) => t,
                Err(e) => {
                    return Err(e);
                },
            };
            let result = builder.emit(TargetInst::Gep { ty, base: b, index: i });
            bind(local_map, dest.id, result.clone());
            Ok(Some(result))
        },
        _ => Ok(None),
    }
}

/// Translates a terminator; leaves any other instruction alone.
///
/// `Ret`, `Jump` and `Br` each end the current block, and the answer for
/// them is `Ok(true)`. A target that the block map does not hold is a fault,
/// `MissingBlock`; on a fault nothing is emitted. For an instruction of
/// another family the answer is `Ok(false)`. The value environment is only
/// read.
pub fn translate_control_flow(
    builder: &mut Builder,
    inst: &Instruction,
    local_map: &HashMap<usize, TargetValue>,
    bb_map: &HashMap<usize, usize>,
) -> (result: Result<bool, InternalError>)
    ensures
        !is_control_flow(inst@) ==> result == Ok::<bool, InternalError>(false) && final(builder)@
            == old(builder)@,
        is_control_flow(inst@) ==> ({
            let outcome = control_flow_effect(
                inst@,
                env_view(local_map@),
                block_map_view(bb_map@),
            );
            &&& transition(
                outcome,
                state_of(*old(builder), local_map@),
                state_of(*final(builder), local_map@),
            )
            &&& match outcome {
                Ok(_) => result == Ok::<bool, InternalError>(true),
                Err(fault) => result == Err::<bool, InternalError>(fault),
            }
        }),
{
    match inst {
        Instruction::Ret { value } => {
            match value {
                Some(v) => {
                    let value = match operand_to_llvm_value(v, local_map) {
                        Ok(v) => v,
                        Err(e) => {
                            return Err(e);
                        },
                    };
                    builder.emit(TargetInst::Ret { value: Some(value) });
                },
                None => {
                    builder.emit(TargetInst::Ret { value: None });
                },
            }
            Ok(true)
        },
        Instruction::Jump { target } => {
            let target = match block_of(*target, bb_map) {
                Ok(t) => t,
                Err(e) => {
                    return Err(e);
                },
            };
            builder.emit(TargetInst::Br { target });
            Ok(true)
        },
        Instruction::Br { condition, then_bb, else_bb } => {
            let condition = match operand_to_llvm_value(condition, local_map) {
                Ok(v) => v,
                Err(e) => {
                    return Err(e);
                },
            };
            let then_block = match block_of(*then_bb, bb_map) {
                Ok(t) => t,
                Err(e) => {
                    return Err(e);
                },
            };
            let else_block = match block_of(*else_bb, bb_map) {
                Ok(t) => t,
                Err(e) => {
                    return Err(e);
                },
            };
            builder.emit(TargetInst::CondBr { condition, then_block, else_block });
            Ok(true)
        },
        _ => Ok(false),
    }
}

/// The local that an instruction defines, if it defines one. A `Store` and
/// the terminators define none, nor does a call without a destination.
pub fn get_dest_local(inst: &Instruction) -> (dest: Option<Local>)
    ensures
        dest == dest_local(inst@),
{
    match inst {
        Instruction::Add { dest, .. } => Some(*dest),
        Instruction::Sub { dest, .. } => Some(*dest),
        Instruction::Mul { dest, .. } => Some(*dest),
        Instruction::Div { dest, .. } => Some(*dest),
        Instruction::Mod { dest, .. } => Some(*dest),
        Instruction::Eq { dest, .. } => Some(*dest),
        Instruction::Ne { dest, .. } => Some(*dest),
        Instruction::Lt { dest, .. } => Some(*dest),
        Instruction::Le { dest, .. } => Some(*dest),
        Instruction::Gt { dest, .. } => Some(*dest),
        Instruction::Ge { dest, .. } => Some(*dest),
        Instruction::And { dest, .. } => Some(*dest),
        Instruction::Or { dest, .. } => Some(*dest),
        Instruction::Not { dest, .. } => Some(*dest),
        Instruction::Load { dest, .. } => Some(*dest),
        Instruction::Alloca { dest, .. } => Some(*dest),
        Instruction::Gep { dest, .. } => Some(*dest),
        Instruction::Call { dest, .. } => *dest,
        Instruction::Phi { dest, .. } => Some(*dest),
        Instruction::Copy { dest, .. } => Some(*dest),
        Instruction::Store { .. } => None,
        Instruction::Ret { .. } => None,
        Instruction::Jump { .. } => None,
        Instruction::Br { .. } => None,
    }
}

proof fn lemma_resolve_all_fault_stays(
    operands: Seq<OperandView>,
    env: Map<usize, TargetValueView>,
    k: int,
    n: int,
)
    requires
        0 <= k <= n <= operands.len(),
        resolve_all(operands.take(k), env) is Err,
    ensures
        resolve_all(operands.take(n), env) == resolve_all(operands.take(k), env),
    decreases n - k,
{
    if k < n {
        lemma_resolve_all_fault_stays(operands, env, k, n - 1);
        assert(operands.take(n).drop_last() =~= operands.take(n - 1));
    }
}

proof fn lemma_lookup_all_fault_stays(positions: Seq<usize>, blocks: Map<usize, nat>, k: int, n: int)
    requires
        0 <= k <= n <= positions.len(),
        lookup_all(positions.take(k), blocks) is Err,
    ensures
        lookup_all(positions.take(n), blocks) == lookup_all(positions.take(k), blocks),
    decreases n - k,
{
    if k < n {
        lemma_lookup_all_fault_stays(positions, blocks, k, n - 1);
        assert(positions.take(n).drop_last() =~= positions.take(n - 1));
    }
}

/// Resolves the incoming pairs of a merge: first every value, in order, then
/// every predecessor, in order. The first fault met that way is the answer.
pub fn resolve_incoming(
    incoming: &Vec<(Operand, usize)>,
    local_map: &HashMap<usize, TargetValue>,
    bb_map: &HashMap<usize, usize>,
) -> (edges: Result<Vec<(TargetValue, usize)>, InternalError>)
    ensures
        match merge_edges(
            crate::mir::incoming_views(incoming@),
            env_view(local_map@),
            block_map_view(bb_map@),
        ) {
            Ok(es) => edges matches Ok(v) && crate::target::edge_views(v@) == es,
            Err(fault) => edges == Err::<Vec<(TargetValue, usize)>, InternalError>(fault),
        },
{
    let ghost pairs = crate::mir::incoming_views(incoming@);
    let ghost operands = incoming_operands(pairs);
    let ghost positions = incoming_positions(pairs);
    let ghost env = env_view(local_map@);
    let ghost blocks = block_map_view(bb_map@);
    let mut values: Vec<TargetValue> = Vec::new();
    let mut i: usize = 0;
    while i < incoming.len()
        invariant
            pairs == crate::mir::incoming_views(incoming@),
            operands == incoming_operands(pairs),
            env == env_view(local_map@),
            i <= incoming@.len(),
            values@.len() == i,
            resolve_all(operands.take(i as int), env) is Ok,
            resolve_all(operands.take(i as int), env)->Ok_0 =~= values@.map_values(
                |v: TargetValue| v@,
            ),
        decreases incoming@.len() - i,
    {
        proof {
            assert(operands.take(i + 1).drop_last() =~= operands.take(i as int));
            assert(operands.take(i + 1).last() == incoming@[i as int].0@);
        }
        match operand_to_llvm_value(&incoming[i].0, local_map) {
            Ok(v) => {
                proof {
                    assert(values@.push(v).map_values(|v: TargetValue| v@) =~= values@.map_values(
                        |v: TargetValue| v@,
                    ).push(v@));
                }
                values.push(v);
            },
            Err(e) => {
                proof {
                    lemma_resolve_all_fault_stays(operands, env, i + 1, operands.len() as int);
                    assert(operands.take(operands.len() as int) =~= operands);
                }
                return Err(e);
            },
        }
        i = i + 1;
    }
    proof {
        assert(operands.take(i as int) =~= operands);
    }
    let mut edges: Vec<(TargetValue, usize)> = Vec::new();
    let mut j: usize = 0;
    while j < incoming.len()
        invariant
            pairs == crate::mir::incoming_views(incoming@),
            positions == incoming_positions(pairs),
            blocks == block_map_view(bb_map@),
            j <= incoming@.len(),
            values@.len() == incoming@.len(),
            edges@.len() == j,
            operands == incoming_operands(pairs),
            env == env_view(local_map@),
            resolve_all(operands, env) is Ok,
            resolve_all(operands, env)->Ok_0 =~= values@.map_values(|v: TargetValue| v@),
            lookup_all(positions.take(j as int), blocks) is Ok,
            lookup_all(positions.take(j as int), blocks)->Ok_0 =~= edges@.map_values(
                |e: (TargetValue, usize)| e.1 as nat,
            ),
            forall|k: int| 0 <= k < j ==> (#[trigger] edges@[k]).0@ == values@[k]@,
        decreases incoming@.len() - j,
    {
        proof {
            assert(positions.take(j + 1).drop_last() =~= positions.take(j as int));
            assert(positions.take(j + 1).last() == incoming@[j as int].1);
        }
        match block_of(incoming[j].1, bb_map) {
            Ok(t) => {
                proof {
                    assert(edges@.push((values@[j as int], t)).map_values(
                        |e: (TargetValue, usize)| e.1 as nat,
                    ) =~= edges@.map_values(|e: (TargetValue, usize)| e.1 as nat).push(t as nat));
                }
                edges.push((values[j].clone(), t));
            },
            Err(e) => {
                proof {
                    lemma_lookup_all_fault_stays(positions, blocks, j + 1, positions.len() as int);
                    assert(positions.take(positions.len() as int) =~= positions);
                }
                return Err(e);
            },
        }
        j = j + 1;
    }
    proof {
        assert(positions.take(j as int) =~= positions);
        assert(crate::target::edge_views(edges@) =~= merge_edges(pairs, env, blocks)->Ok_0);
    }
    Ok(edges)
}

/// Every instruction that defines a local binds it, and no instruction
/// unbinds or rebinds another local.
///
/// After an instruction is translated, its destination, if it has one,
/// stands for a value. For an arithmetic instruction or a comparison that
/// value is the result of the operation just emitted. Every local that was
/// bound before is bound after, and to the same value unless it is the
/// destination itself.
pub proof fn lemma_destination_is_bound(
    inst: InstructionView,
    state: TranslationState,
    blocks: Map<usize, nat>,
)
    requires
        step(inst, state, blocks) is Ok,
    ensures
        ({
            let next = step(inst, state, blocks)->Ok_0;
            &&& dest_local(inst) matches Some(d) ==> next.env.contains_key(d.id)
            &&& is_arithmetic(inst) || is_comparison(inst) ==> dest_local(inst) is Some
                && next.env[dest_local(inst)->0.id] == state.builder.here()
            &&& forall|id: usize| state.env.contains_key(id) ==> next.env.contains_key(id)
            &&& forall|id: usize|
                state.env.contains_key(id) && dest_local(inst) != Some(Local { id })
                    ==> next.env[id] == state.env[id]
        }),
{
    reveal(step);
}

/// The two operands of an arithmetic instruction or of a comparison, left
/// first.
pub open spec fn operands_of(inst: InstructionView) -> (OperandView, OperandView)
    recommends
        is_arithmetic(inst) || is_comparison(inst),
{
    match arithmetic_parts(inst) {
        Some((_, _, left, right)) => (left, right),
        None => match comparison_parts(inst) {
            Some((_, _, left, right)) => (left, right),
            None => arbitrary(),
        },
    }
}

/// Reading a local that is not bound is a fault, never a value: an
/// arithmetic instruction or a comparison whose left operand is such a local
/// stops the translation with `UndefinedLocal`, and so does one whose left
/// operand resolves and whose right operand is such a local.
pub proof fn lemma_unbound_local_is_a_fault(
    inst: InstructionView,
    state: TranslationState,
    blocks: Map<usize, nat>,
    local: Local,
)
    requires
        !state.env.contains_key(local.id),
        is_arithmetic(inst) || is_comparison(inst),
        ({
            let (left, right) = operands_of(inst);
            left == OperandView::Local(local) || (resolve(left, state.env) is Ok && right
                == OperandView::Local(local))
        }),
    ensures
        step(inst, state, blocks) == Err::<TranslationState, InternalError>(
            InternalError::UndefinedLocal { id: local.id },
        ),
        resolve(OperandView::Local(local), state.env) == Err::<TargetValueView, InternalError>(
            InternalError::UndefinedLocal { id: local.id },
        ),
{
    reveal(step);
}

/// A local resolves exactly when it is bound, and then to the value it is
/// bound to.
pub proof fn lemma_local_resolves_when_bound(local: Local, env: Map<usize, TargetValueView>)
    ensures
        env.contains_key(local.id) ==> resolve(OperandView::Local(local), env) == Ok::<
            TargetValueView,
            InternalError,
        >(env[local.id]),
        !env.contains_key(local.id) ==> resolve(OperandView::Local(local), env) == Err::<
            TargetValueView,
            InternalError,
        >(InternalError::UndefinedLocal { id: local.id }),
{
}

} // verus!
