//! The target-level module that code generation produces: machine types,
//! values, instructions in basic blocks, functions. It is plain data, so the
//! stages after code generation can read it and a native toolkit can be
//! driven from it.

use vstd::prelude::*;

verus! {

/// A machine type.
#[derive(Debug, PartialEq, Eq)]
pub enum TargetType {
    /// The zero-width type of a function that returns nothing.
    Void,
    /// An integer of the given width in bits.
    Int { bits: u32 },
    /// A 64-bit floating-point number.
    Double,
    /// A pointer in the default address space.
    Pointer { pointee: Box<TargetType> },
    /// A fixed-length aggregate.
    Array { element: Box<TargetType>, len: u64 },
    /// An opaque aggregate, keyed by the structure's declared name.
    Struct { name: String },
    /// The signature of a function that is not variadic.
    Function { ret: Box<TargetType>, params: Vec<TargetType> },
}

/// What a [`TargetType`] is, as a mathematical value.
pub enum TargetTypeView {
    Void,
    Int { bits: nat },
    Double,
    Pointer { pointee: Box<TargetTypeView> },
    Array { element: Box<TargetTypeView>, len: nat },
    Struct { name: Seq<char> },
    Function { ret: Box<TargetTypeView>, params: Seq<TargetTypeView> },
}

/// The value of a machine type, by recursion on its structure.
pub open spec fn target_type_view(ty: TargetType) -> TargetTypeView
    decreases ty,
{
    match ty {
        TargetType::Void => TargetTypeView::Void,
        TargetType::Int { bits } => TargetTypeView::Int { bits: bits as nat },
        TargetType::Double => TargetTypeView::Double,
        TargetType::Pointer { pointee } => TargetTypeView::Pointer {
            pointee: Box::new(target_type_view(*pointee)),
        },
        TargetType::Array { element, len } => TargetTypeView::Array {
            element: Box::new(target_type_view(*element)),
            len: len as nat,
        },
        TargetType::Struct { name } => TargetTypeView::Struct { name: name@ },
        TargetType::Function { ret, params } => TargetTypeView::Function {
            ret: Box::new(target_type_view(*ret)),
            params: Seq::new(
                params@.len(),
                |i: int|
                    if 0 <= i < params@.len() {
                        target_type_view(params@[i])
                    } else {
                        TargetTypeView::Void
                    },
            ),
        },
    }
}

impl View for TargetType {
    type V = TargetTypeView;

    open spec fn view(&self) -> TargetTypeView {
        target_type_view(*self)
    }
}

/// The values of a list of machine types, in order.
pub open spec fn target_type_views(types: Seq<TargetType>) -> Seq<TargetTypeView> {
    types.map_values(|t: TargetType| t@)
}

/// The pointer that stands for every value whose layout this layer does not
/// model: a pointer to bytes.
pub open spec fn opaque_pointer() -> TargetTypeView {
    TargetTypeView::Pointer { pointee: Box::new(TargetTypeView::Int { bits: 8 }) }
}

/// A value that an instruction can read.
#[derive(Debug, PartialEq, Eq)]
pub enum TargetValue {
    /// An integer constant of the given width. `value` is read modulo two to
    /// the width.
    ConstInt { bits: u32, value: i64 },
    /// A 64-bit floating-point constant, held as its IEEE 754 bit pattern.
    ConstReal { bits: u64 },
    /// A constant array of bytes. The array carries its own length; the
    /// target appends one zero byte after the last of `bytes`.
    ConstString { bytes: Vec<u8> },
    /// The null pointer to bytes.
    NullPointer,
    /// Stands where the result of a call belongs, as long as calls are not
    /// lowered.
    Placeholder,
    /// The parameter of the enclosing function at this position.
    Param { index: usize },
    /// The result of the instruction at position `index` of block `block`.
    Inst { block: usize, index: usize },
}

/// What a [`TargetValue`] is, as a mathematical value.
pub enum TargetValueView {
    ConstInt { bits: nat, value: int },
    ConstReal { bits: u64 },
    ConstString { bytes: Seq<u8> },
    NullPointer,
    Placeholder,
    Param { index: nat },
    Inst { block: nat, index: nat },
}

impl View for TargetValue {
    type V = TargetValueView;

    open spec fn view(&self) -> TargetValueView {
        match self {
            TargetValue::ConstInt { bits, value } => TargetValueView::ConstInt {
                bits: *bits as nat,
                value: *value as int,
            },
            TargetValue::ConstReal { bits } => TargetValueView::ConstReal { bits: *bits },
            TargetValue::ConstString { bytes } => TargetValueView::ConstString { bytes: bytes@ },
            TargetValue::NullPointer => TargetValueView::NullPointer,
            TargetValue::Placeholder => TargetValueView::Placeholder,
            TargetValue::Param { index } => TargetValueView::Param { index: *index as nat },
            TargetValue::Inst { block, index } => TargetValueView::Inst {
                block: *block as nat,
                index: *index as nat,
            },
        }
    }
}

impl Clone for TargetValue {
    fn clone(&self) -> (copy: Self)
        ensures
            copy@ == self@,
    {
        match self {
            TargetValue::ConstInt { bits, value } => TargetValue::ConstInt {
                bits: *bits,
                value: *value,
            },
            TargetValue::ConstReal { bits } => TargetValue::ConstReal { bits: *bits },
            TargetValue::ConstString { bytes } => {
                let mut copy: Vec<u8> = Vec::new();
                let mut i: usize = 0;
                while i < bytes.len()
                    invariant
                        i <= bytes@.len(),
                        copy@ == bytes@.take(i as int),
                    decreases bytes@.len() - i,
                {
                    copy.push(bytes[i]);
                    assert(bytes@.take(i + 1) =~= bytes@.take(i as int).push(bytes@[i as int]));
                    i = i + 1;
                }
                assert(bytes@.take(i as int) =~= bytes@);
                TargetValue::ConstString { bytes: copy }
            },
            TargetValue::NullPointer => TargetValue::NullPointer,
            TargetValue::Placeholder => TargetValue::Placeholder,
            TargetValue::Param { index } => TargetValue::Param { index: *index },
            TargetValue::Inst { block, index } => TargetValue::Inst {
                block: *block,
                index: *index,
            },
        }
    }
}

/// The value of an optional target value.
pub open spec fn optional_value_view(value: Option<TargetValue>) -> Option<TargetValueView> {
    match value {
        Some(v) => Some(v@),
        None => None,
    }
}

/// The values of the incoming pairs of a merge, in order.
pub open spec fn edge_views(edges: Seq<(TargetValue, usize)>) -> Seq<(TargetValueView, nat)> {
    edges.map_values(|e: (TargetValue, usize)| (e.0@, e.1 as nat))
}

/// The two-operand operations. Division and remainder are signed.
#[derive(Debug, Clone, Copy, PartialEq, Eq, Structural)]
pub enum BinaryOp {
    Add,
    Sub,
    Mul,
    SDiv,
    SRem,
    And,
    Or,
}

/// The integer predicates. The orderings are signed.
#[derive(Debug, Clone, Copy, PartialEq, Eq, Structural)]
pub enum IntPredicate {
    Eq,
    Ne,
    Slt,
    Sle,
    Sgt,
    Sge,
}

/// One target-level operation.
#[derive(Debug, PartialEq, Eq)]
#[allow(inconsistent_fields)]
pub enum TargetInst {
    Binary { op: BinaryOp, left: TargetValue, right: TargetValue },
    /// Bitwise complement.
    Not { operand: TargetValue },
    Compare { predicate: IntPredicate, left: TargetValue, right: TargetValue },
    Load { ty: TargetType, pointer: TargetValue },
    Store { value: TargetValue, pointer: TargetValue },
    /// Reserves stack space for one value of the type.
    Alloca { ty: TargetType },
    /// The address of the element at `index` from `base`, in steps of `ty`.
    Gep { ty: TargetType, base: TargetValue, index: TargetValue },
    /// A merge: one value per control-flow edge, each with the block that the
    /// edge comes from.
    Phi { ty: TargetType, incoming: Vec<(TargetValue, usize)> },
    Ret { value: Option<TargetValue> },
    Br { target: usize },
    CondBr { condition: TargetValue, then_block: usize, else_block: usize },
}

/// What a [`TargetInst`] is, as a mathematical value.
#[allow(inconsistent_fields)]
pub enum TargetInstView {
    Binary { op: BinaryOp, left: TargetValueView, right: TargetValueView },
    Not { operand: TargetValueView },
    Compare { predicate: IntPredicate, left: TargetValueView, right: TargetValueView },
    Load { ty: TargetTypeView, pointer: TargetValueView },
    Store { value: TargetValueView, pointer: TargetValueView },
    Alloca { ty: TargetTypeView },
    Gep { ty: TargetTypeView, base: TargetValueView, index: TargetValueView },
    Phi { ty: TargetTypeView, incoming: Seq<(TargetValueView, nat)> },
    Ret { value: Option<TargetValueView> },
    Br { target: nat },
    CondBr { condition: TargetValueView, then_block: nat, else_block: nat },
}

impl View for TargetInst {
    type V = TargetInstView;

    open spec fn view(&self) -> TargetInstView {
        match self {
            TargetInst::Binary { op, left, right } => TargetInstView::Binary {
                op: *op,
                left: left@,
                right: right@,
            },
            TargetInst::Not { operand } => TargetInstView::Not { operand: operand@ },
            TargetInst::Compare { predicate, left, right } => TargetInstView::Compare {
                predicate: *predicate,
                left: left@,
                right: right@,
            },
            TargetInst::Load { ty, pointer } => TargetInstView::Load { ty: ty@, pointer: pointer@ },
            TargetInst::Store { value, pointer } => TargetInstView::Store {
                value: value@,
                pointer: pointer@,
            },
            TargetInst::Alloca { ty } => TargetInstView::Alloca { ty: ty@ },
            TargetInst::Gep { ty, base, index } => TargetInstView::Gep {
                ty: ty@,
                base: base@,
                index: index@,
            },
            TargetInst::Phi { ty, incoming } => TargetInstView::Phi {
                ty: ty@,
                incoming: edge_views(incoming@),
            },
            TargetInst::Ret { value } => TargetInstView::Ret { value: optional_value_view(*value) },
            TargetInst::Br { target } => TargetInstView::Br { target: *target as nat },
            TargetInst::CondBr { condition, then_block, else_block } => TargetInstView::CondBr {
                condition: condition@,
                then_block: *then_block as nat,
                else_block: *else_block as nat,
            },
        }
    }
}

impl TargetInstView {
    /// Whether the operation ends its block.
    pub open spec fn is_terminator(self) -> bool {
        self is Ret || self is Br || self is CondBr
    }

    /// The name under which the operation's result is known in the text form
    /// of the module; empty for an operation without a result.
    pub open spec fn name(self) -> Seq<char> {
        match self {
            TargetInstView::Binary { op, .. } => match op {
                BinaryOp::Add => "add"@,
                BinaryOp::Sub => "sub"@,
                BinaryOp::Mul => "mul"@,
                BinaryOp::SDiv => "div"@,
                BinaryOp::SRem => "mod"@,
                BinaryOp::And => "and"@,
                BinaryOp::Or => "or"@,
            },
            TargetInstView::Not { .. } => "not"@,
            TargetInstView::Compare { predicate, .. } => match predicate {
                IntPredicate::Eq => "eq"@,
                IntPredicate::Ne => "ne"@,
                IntPredicate::Slt => "lt"@,
                IntPredicate::Sle => "le"@,
                IntPredicate::Sgt => "gt"@,
                IntPredicate::Sge => "ge"@,
            },
            TargetInstView::Load { .. } => "load"@,
            TargetInstView::Alloca { .. } => "alloca"@,
            TargetInstView::Gep { .. } => "gep"@,
            TargetInstView::Phi { .. } => "phi"@,
            TargetInstView::Store { .. } => ""@,
            TargetInstView::Ret { .. } => ""@,
            TargetInstView::Br { .. } => ""@,
            TargetInstView::CondBr { .. } => ""@,
        }
    }
}

impl TargetInst {
    /// Whether the operation ends its block.
    pub fn is_terminator(&self) -> (ends: bool)
        ensures
            ends == self@.is_terminator(),
    {
        match self {
            TargetInst::Ret { .. } => true,
            TargetInst::Br { .. } => true,
            TargetInst::CondBr { .. } => true,
            _ => false,
        }
    }

    /// The name under which the operation's result is known in the text form
    /// of the module; empty for an operation without a result.
    pub fn name(&self) -> (name: &'static str)
        ensures
            name@ == self@.name(),
    {
        match self {
            TargetInst::Binary { op, .. } => match op {
                BinaryOp::Add => "add",
                BinaryOp::Sub => "sub",
                BinaryOp::Mul => "mul",
                BinaryOp::SDiv => "div",
                BinaryOp::SRem => "mod",
                BinaryOp::And => "and",
                BinaryOp::Or => "or",
            },
            TargetInst::Not { .. } => "not",
            TargetInst::Compare { predicate, .. } => match predicate {
                IntPredicate::Eq => "eq",
                IntPredicate::Ne => "ne",
                IntPredicate::Slt => "lt",
                IntPredicate::Sle => "le",
                IntPredicate::Sgt => "gt",
                IntPredicate::Sge => "ge",
            },
            TargetInst::Load { .. } => "load",
            TargetInst::Alloca { .. } => "alloca",
            TargetInst::Gep { .. } => "gep",
            TargetInst::Phi { .. } => "phi",
            TargetInst::Store { .. } => "",
            TargetInst::Ret { .. } => "",
            TargetInst::Br { .. } => "",
            TargetInst::CondBr { .. } => "",
        }
    }
}

/// A basic block of the target: a label and the operations in order.
#[derive(Debug, PartialEq, Eq)]
pub struct TargetBlock {
    pub label: String,
    pub insts: Vec<TargetInst>,
}

/// What a [`TargetBlock`] is, as a mathematical value.
pub struct TargetBlockView {
    pub label: Seq<char>,
    pub insts: Seq<TargetInstView>,
}

impl View for TargetBlock {
    type V = TargetBlockView;

    open spec fn view(&self) -> TargetBlockView {
        TargetBlockView { label: self.label@, insts: self.insts@.map_values(|i: TargetInst| i@) }
    }
}

impl TargetBlockView {
    /// The block ends with a terminator and holds no other.
    pub open spec fn well_terminated(self) -> bool {
        &&& self.insts.len() > 0
        &&& self.insts.last().is_terminator()
        &&& forall|i: int| 0 <= i < self.insts.len() - 1 ==> !(#[trigger] self.insts[i]).is_terminator()
    }
}

/// A function of the target. One without blocks is a declaration.
#[derive(Debug, PartialEq, Eq)]
pub struct TargetFunction {
    pub name: String,
    pub ret: TargetType,
    pub params: Vec<TargetType>,
    pub blocks: Vec<TargetBlock>,
}

/// What a [`TargetFunction`] is, as a mathematical value.
pub struct TargetFunctionView {
    pub name: Seq<char>,
    pub ret: TargetTypeView,
    pub params: Seq<TargetTypeView>,
    pub blocks: Seq<TargetBlockView>,
}

impl View for TargetFunction {
    type V = TargetFunctionView;

    open spec fn view(&self) -> TargetFunctionView {
        TargetFunctionView {
            name: self.name@,
            ret: self.ret@,
            params: target_type_views(self.params@),
            blocks: self.blocks@.map_values(|b: TargetBlock| b@),
        }
    }
}

/// A module of the target: named functions in the order of their
/// registration.
#[derive(Debug, PartialEq, Eq)]
pub struct TargetModule {
    pub name: String,
    /// The description of the target that the module is for.
    pub target_triple: String,
    pub functions: Vec<TargetFunction>,
}

/// What a [`TargetModule`] is, as a mathematical value.
pub struct TargetModuleView {
    pub name: Seq<char>,
    pub target_triple: Seq<char>,
    pub functions: Seq<TargetFunctionView>,
}

impl View for TargetModule {
    type V = TargetModuleView;

    open spec fn view(&self) -> TargetModuleView {
        TargetModuleView {
            name: self.name@,
            target_triple: self.target_triple@,
            functions: self.functions@.map_values(|f: TargetFunction| f@),
        }
    }
}

impl TargetModuleView {
    /// Whether a function of this name is registered.
    pub open spec fn declares(self, name: Seq<char>) -> bool {
        exists|i: int| 0 <= i < self.functions.len() && (#[trigger] self.functions[i]).name == name
    }

    /// The module with one more function, registered last.
    pub open spec fn with_function(self, function: TargetFunctionView) -> TargetModuleView {
        TargetModuleView { functions: self.functions.push(function), ..self }
    }
}

impl TargetModule {
    /// Whether a function of this name is registered.
    pub fn declares(&self, name: &String) -> (found: bool)
        ensures
            found == self@.declares(name@),
    {
        let mut i: usize = 0;
        while i < self.functions.len()
            invariant
                i <= self.functions@.len(),
                forall|j: int| 0 <= j < i ==> (#[trigger] self@.functions[j]).name != name@,
            decreases self.functions@.len() - i,
        {
            if self.functions[i].name == *name {
                assert(self@.functions[i as int].name == name@);
                return true;
            }
            i = i + 1;
        }
        false
    }
}

} // verus!
