//! The mid-level intermediate representation that the backend consumes:
//! functions made of basic blocks, blocks made of typed instructions in a
//! mostly single-assignment form.

use vstd::prelude::*;

verus! {

/// The built-in scalar types.
#[derive(Debug, Clone, Copy, PartialEq, Eq, Structural)]
pub enum PrimitiveType {
    Void,
    Byte,
    Int,
    Long,
    Size,
    Float,
    Bool,
    Char,
}

/// A type of the intermediate representation.
#[derive(Debug, PartialEq, Eq)]
pub enum Type {
    Primitive(PrimitiveType),
    Pointer { pointee: Box<Type> },
    Array { element: Box<Type>, size: usize },
    /// A structure, known here by its declared name only.
    Struct { name: String },
    Function { return_type: Box<Type>, params: Vec<Type> },
    String,
    /// A value dispatched dynamically through the named trait.
    TraitObject { name: String },
    /// A type parameter. Monomorphization replaces every one of these before
    /// code generation, so none may reach the backend.
    Generic { name: String },
}

/// What a [`Type`] is, as a mathematical value.
pub enum TypeView {
    Primitive(PrimitiveType),
    Pointer { pointee: Box<TypeView> },
    Array { element: Box<TypeView>, size: nat },
    Struct { name: Seq<char> },
    Function { return_type: Box<TypeView>, params: Seq<TypeView> },
    String,
    TraitObject { name: Seq<char> },
    Generic { name: Seq<char> },
}

/// The value of a type, by recursion on its structure.
pub open spec fn type_view(ty: Type) -> TypeView
    decreases ty,
{
    match ty {
        Type::Primitive(p) => TypeView::Primitive(p),
        Type::Pointer { pointee } => TypeView::Pointer { pointee: Box::new(type_view(*pointee)) },
        Type::Array { element, size } => TypeView::Array {
            element: Box::new(type_view(*element)),
            size: size as nat,
        },
        Type::Struct { name } => TypeView::Struct { name: name@ },
        Type::Function { return_type, params } => TypeView::Function {
            return_type: Box::new(type_view(*return_type)),
            params: Seq::new(
                params@.len(),
                |i: int|
                    if 0 <= i < params@.len() {
                        type_view(params@[i])
                    } else {
                        TypeView::String
                    },
            ),
        },
        Type::String => TypeView::String,
        Type::TraitObject { name } => TypeView::TraitObject { name: name@ },
        Type::Generic { name } => TypeView::Generic { name: name@ },
    }
}

impl View for Type {
    type V = TypeView;

    open spec fn view(&self) -> TypeView {
        type_view(*self)
    }
}

impl Clone for Type {
    fn clone(&self) -> (copy: Self)
        ensures
            copy@ == self@,
        decreases self,
    {
        match self {
            Type::Primitive(p) => Type::Primitive(*p),
            Type::Pointer { pointee } => Type::Pointer { pointee: Box::new((&**pointee).clone()) },
            Type::Array { element, size } => Type::Array {
                element: Box::new((&**element).clone()),
                size: *size,
            },
            Type::Struct { name } => Type::Struct { name: name.clone() },
            Type::Function { return_type, params } => {
                let mut copies: Vec<Type> = Vec::new();
                let mut i: usize = 0;
                while i < params.len()
                    invariant
                        *self matches Type::Function { params: ps, .. } && ps == *params,
                        i <= params@.len(),
                        copies@.len() == i,
                        forall|j: int| 0 <= j < i ==> (#[trigger] copies@[j])@ == params@[j]@,
                    decreases params@.len() - i,
                {
                    copies.push(params[i].clone());
                    i = i + 1;
                }
                let copy = Type::Function {
                    return_type: Box::new((&**return_type).clone()),
                    params: copies,
                };
                assert(copy@->Function_params =~= self@->Function_params);
                copy
            },
            Type::String => Type::String,
            Type::TraitObject { name } => Type::TraitObject { name: name.clone() },
            Type::Generic { name } => Type::Generic { name: name.clone() },
        }
    }
}

/// A numbered definition site. Each instruction result is written to at most
/// one local, and each local is written at most once in a function.
#[derive(Debug, Clone, Copy, PartialEq, Eq, Structural)]
pub struct Local {
    pub id: usize,
}

/// A literal.
#[derive(Debug, Clone, PartialEq, Eq)]
pub enum Constant {
    Int(i32),
    /// A 64-bit floating-point number, held as its IEEE 754 bit pattern.
    Float { bits: u64 },
    Bool(bool),
    Char(char),
    String(String),
    Null,
}

/// What a [`Constant`] is, as a mathematical value.
pub enum ConstantView {
    Int(i32),
    Float { bits: u64 },
    Bool(bool),
    Char(char),
    String(Seq<char>),
    Null,
}

impl View for Constant {
    type V = ConstantView;

    open spec fn view(&self) -> ConstantView {
        match self {
            Constant::Int(i) => ConstantView::Int(*i),
            Constant::Float { bits } => ConstantView::Float { bits: *bits },
            Constant::Bool(b) => ConstantView::Bool(*b),
            Constant::Char(c) => ConstantView::Char(*c),
            Constant::String(s) => ConstantView::String(s@),
            Constant::Null => ConstantView::Null,
        }
    }
}

/// A reference to a callable, by name.
#[derive(Debug, Clone, PartialEq, Eq)]
pub struct FunctionRef {
    pub name: String,
}

/// What an instruction reads.
#[derive(Debug, Clone, PartialEq, Eq)]
pub enum Operand {
    Constant(Constant),
    Local(Local),
    Function(FunctionRef),
}

/// What an [`Operand`] is, as a mathematical value.
pub enum OperandView {
    Constant(ConstantView),
    Local(Local),
    Function { name: Seq<char> },
}

impl View for Operand {
    type V = OperandView;

    open spec fn view(&self) -> OperandView {
        match self {
            Operand::Constant(c) => OperandView::Constant(c@),
            Operand::Local(l) => OperandView::Local(*l),
            Operand::Function(f) => OperandView::Function { name: f.name@ },
        }
    }
}

/// The values of a list of operands, in order.
pub open spec fn operand_views(operands: Seq<Operand>) -> Seq<OperandView> {
    operands.map_values(|o: Operand| o@)
}

/// The values of the incoming pairs of a `Phi`, in order.
pub open spec fn incoming_views(incoming: Seq<(Operand, usize)>) -> Seq<(OperandView, usize)> {
    incoming.map_values(|p: (Operand, usize)| (p.0@, p.1))
}

/// The value of an optional type.
pub open spec fn optional_type_view(ty: Option<Type>) -> Option<TypeView> {
    match ty {
        Some(t) => Some(t@),
        None => None,
    }
}

/// One instruction. The terminators are `Ret`, `Jump` and `Br`; a block
/// index in them, and in `Phi`, is a position in the function's block list.
#[derive(Debug, Clone, PartialEq, Eq)]
pub enum Instruction {
    Add { dest: Local, left: Operand, right: Operand, type_: Type },
    Sub { dest: Local, left: Operand, right: Operand, type_: Type },
    Mul { dest: Local, left: Operand, right: Operand, type_: Type },
    Div { dest: Local, left: Operand, right: Operand, type_: Type },
    Mod { dest: Local, left: Operand, right: Operand, type_: Type },
    Eq { dest: Local, left: Operand, right: Operand },
    Ne { dest: Local, left: Operand, right: Operand },
    Lt { dest: Local, left: Operand, right: Operand },
    Le { dest: Local, left: Operand, right: Operand },
    Gt { dest: Local, left: Operand, right: Operand },
    Ge { dest: Local, left: Operand, right: Operand },
    And { dest: Local, left: Operand, right: Operand },
    Or { dest: Local, left: Operand, right: Operand },
    Not { dest: Local, operand: Operand },
    Load { dest: Local, source: Operand, type_: Type },
    /// Writes `source` through the address that `dest` resolves to.
    Store { dest: Operand, source: Operand, type_: Type },
    Alloca { dest: Local, type_: Type },
    Gep { dest: Local, base: Operand, index: Operand, type_: Type },
    Ret { value: Option<Operand> },
    Jump { target: usize },
    Br { condition: Operand, then_bb: usize, else_bb: usize },
    Call { dest: Option<Local>, func: Operand, args: Vec<Operand>, return_type: Option<Type> },
    Phi { dest: Local, type_: Type, incoming: Vec<(Operand, usize)> },
    Copy { dest: Local, source: Operand, type_: Type },
}

/// What an [`Instruction`] is, as a mathematical value.
pub enum InstructionView {
    Add { dest: Local, left: OperandView, right: OperandView, type_: TypeView },
    Sub { dest: Local, left: OperandView, right: OperandView, type_: TypeView },
    Mul { dest: Local, left: OperandView, right: OperandView, type_: TypeView },
    Div { dest: Local, left: OperandView, right: OperandView, type_: TypeView },
    Mod { dest: Local, left: OperandView, right: OperandView, type_: TypeView },
    Eq { dest: Local, left: OperandView, right: OperandView },
    Ne { dest: Local, left: OperandView, right: OperandView },
    Lt { dest: Local, left: OperandView, right: OperandView },
    Le { dest: Local, left: OperandView, right: OperandView },
    Gt { dest: Local, left: OperandView, right: OperandView },
    Ge { dest: Local, left: OperandView, right: OperandView },
    And { dest: Local, left: OperandView, right: OperandView },
    Or { dest: Local, left: OperandView, right: OperandView },
    Not { dest: Local, operand: OperandView },
    Load { dest: Local, source: OperandView, type_: TypeView },
    Store { dest: OperandView, source: OperandView, type_: TypeView },
    Alloca { dest: Local, type_: TypeView },
    Gep { dest: Local, base: OperandView, index: OperandView, type_: TypeView },
    Ret { value: Option<OperandView> },
    Jump { target: usize },
    Br { condition: OperandView, then_bb: usize, else_bb: usize },
    Call {
        dest: Option<Local>,
        func: OperandView,
        args: Seq<OperandView>,
        return_type: Option<TypeView>,
    },
    Phi { dest: Local, type_: TypeView, incoming: Seq<(OperandView, usize)> },
    Copy { dest: Local, source: OperandView, type_: TypeView },
}

impl View for Instruction {
    type V = InstructionView;

    open spec fn view(&self) -> InstructionView {
        match self {
            Instruction::Add { dest, left, right, type_ } => InstructionView::Add {
                dest: *dest,
                left: left@,
                right: right@,
                type_: type_@,
            },
            Instruction::Sub { dest, left, right, type_ } => InstructionView::Sub {
                dest: *dest,
                left: left@,
                right: right@,
                type_: type_@,
            },
            Instruction::Mul { dest, left, right, type_ } => InstructionView::Mul {
                dest: *dest,
                left: left@,
                right: right@,
                type_: type_@,
            },
            Instruction::Div { dest, left, right, type_ } => InstructionView::Div {
                dest: *dest,
                left: left@,
                right: right@,
                type_: type_@,
            },
            Instruction::Mod { dest, left, right, type_ } => InstructionView::Mod {
                dest: *dest,
                left: left@,
                right: right@,
                type_: type_@,
            },
            Instruction::Eq { dest, left, right } => InstructionView::Eq {
                dest: *dest,
                left: left@,
                right: right@,
            },
            Instruction::Ne { dest, left, right } => InstructionView::Ne {
                dest: *dest,
                left: left@,
                right: right@,
            },
            Instruction::Lt { dest, left, right } => InstructionView::Lt {
                dest: *dest,
                left: left@,
                right: right@,
            },
            Instruction::Le { dest, left, right } => InstructionView::Le {
                dest: *dest,
                left: left@,
                right: right@,
            },
            Instruction::Gt { dest, left, right } => InstructionView::Gt {
                dest: *dest,
                left: left@,
                right: right@,
            },
            Instruction::Ge { dest, left, right } => InstructionView::Ge {
                dest: *dest,
                left: left@,
                right: right@,
            },
            Instruction::And { dest, left, right } => InstructionView::And {
                dest: *dest,
                left: left@,
                right: right@,
            },
            Instruction::Or { dest, left, right } => InstructionView::Or {
                dest: *dest,
                left: left@,
                right: right@,
            },
            Instruction::Not { dest, operand } => InstructionView::Not {
                dest: *dest,
                operand: operand@,
            },
            Instruction::Load { dest, source, type_ } => InstructionView::Load {
                dest: *dest,
                source: source@,
                type_: type_@,
            },
            Instruction::Store { dest, source, type_ } => InstructionView::Store {
                dest: dest@,
                source: source@,
                type_: type_@,
            },
            Instruction::Alloca { dest, type_ } => InstructionView::Alloca {
                dest: *dest,
                type_: type_@,
            },
            Instruction::Gep { dest, base, index, type_ } => InstructionView::Gep {
                dest: *dest,
                base: base@,
                index: index@,
                type_: type_@,
            },
            Instruction::Ret { value } => InstructionView::Ret {
                value: match value {
                    Some(v) => Some(v@),
                    None => None,
                },
            },
            Instruction::Jump { target } => InstructionView::Jump { target: *target },
            Instruction::Br { condition, then_bb, else_bb } => InstructionView::Br {
                condition: condition@,
                then_bb: *then_bb,
                else_bb: *else_bb,
            },
            Instruction::Call { dest, func, args, return_type } => InstructionView::Call {
                dest: *dest,
                func: func@,
                args: operand_views(args@),
                return_type: optional_type_view(*return_type),
            },
            Instruction::Phi { dest, type_, incoming } => InstructionView::Phi {
                dest: *dest,
                type_: type_@,
                incoming: incoming_views(incoming@),
            },
            Instruction::Copy { dest, source, type_ } => InstructionView::Copy {
                dest: *dest,
                source: source@,
                type_: type_@,
            },
        }
    }
}

impl InstructionView {
    /// Whether the instruction ends its block. `Ret`, `Jump` and `Br` do, and
    /// no other.
    pub open spec fn is_terminator(self) -> bool {
        self is Ret || self is Jump || self is Br
    }
}

impl Instruction {
    /// Whether the instruction ends its block.
    pub fn is_terminator(&self) -> (ends: bool)
        ensures
            ends == self@.is_terminator(),
    {
        match self {
            Instruction::Ret { .. } => true,
            Instruction::Jump { .. } => true,
            Instruction::Br { .. } => true,
            _ => false,
        }
    }
}

/// A straight-line run of instructions. A block is known by its position in
/// the function's block list.
#[derive(Debug, Clone, PartialEq, Eq)]
pub struct BasicBlock {
    pub instructions: Vec<Instruction>,
}

/// What a [`BasicBlock`] is, as a mathematical value.
pub struct BasicBlockView {
    pub instructions: Seq<InstructionView>,
}

impl View for BasicBlock {
    type V = BasicBlockView;

    open spec fn view(&self) -> BasicBlockView {
        BasicBlockView { instructions: self.instructions@.map_values(|i: Instruction| i@) }
    }
}

impl BasicBlockView {
    /// The block ends with a terminator and holds no other.
    pub open spec fn well_terminated(self) -> bool {
        &&& self.instructions.len() > 0
        &&& self.instructions.last().is_terminator()
        &&& forall|i: int|
            0 <= i < self.instructions.len() - 1 ==> !(#[trigger] self.instructions[i]).is_terminator()
    }
}

impl BasicBlock {
    /// Whether the block ends with a terminator and holds no other.
    /// Translation does not ask this of its input; whoever makes the input
    /// owes it.
    pub fn is_well_terminated(&self) -> (well: bool)
        ensures
            well == self@.well_terminated(),
    {
        let count: usize = self.instructions.len();
        if count == 0 {
            return false;
        }
        let mut i: usize = 0;
        while i < count - 1
            invariant
                count == self.instructions@.len(),
                count > 0,
                i <= count - 1,
                forall|j: int| 0 <= j < i ==> !(#[trigger] self@.instructions[j]).is_terminator(),
            decreases count - i,
        {
            if self.instructions[i].is_terminator() {
                assert(self@.instructions[i as int].is_terminator());
                return false;
            }
            i = i + 1;
        }
        let ends = self.instructions[count - 1].is_terminator();
        assert(self@.instructions.last() == self.instructions@[count - 1]@);
        ends
    }
}

/// A parameter: its type and the local that holds it.
#[derive(Debug, Clone, PartialEq, Eq)]
pub struct Param {
    pub type_: Type,
    pub local: Local,
}

/// What a [`Param`] is, as a mathematical value.
pub struct ParamView {
    pub type_: TypeView,
    pub local: Local,
}

impl View for Param {
    type V = ParamView;

    open spec fn view(&self) -> ParamView {
        ParamView { type_: self.type_@, local: self.local }
    }
}

/// A function. Without a return type it returns nothing.
#[derive(Debug, Clone, PartialEq, Eq)]
pub struct MirFunction {
    pub name: String,
    pub params: Vec<Param>,
    pub return_type: Option<Type>,
    pub basic_blocks: Vec<BasicBlock>,
}

/// What a [`MirFunction`] is, as a mathematical value.
pub struct MirFunctionView {
    pub name: Seq<char>,
    pub params: Seq<ParamView>,
    pub return_type: Option<TypeView>,
    pub basic_blocks: Seq<BasicBlockView>,
}

impl View for MirFunction {
    type V = MirFunctionView;

    open spec fn view(&self) -> MirFunctionView {
        MirFunctionView {
            name: self.name@,
            params: self.params@.map_values(|p: Param| p@),
            return_type: optional_type_view(self.return_type),
            basic_blocks: self.basic_blocks@.map_values(|b: BasicBlock| b@),
        }
    }
}

impl MirFunctionView {
    /// Every block of the function ends with a terminator and holds no
    /// other.
    pub open spec fn well_terminated(self) -> bool {
        forall|b: int|
            0 <= b < self.basic_blocks.len() ==> (#[trigger] self.basic_blocks[b]).well_terminated()
    }
}

impl MirFunction {
    /// Whether every block of the function ends with a terminator and holds
    /// no other.
    pub fn is_well_terminated(&self) -> (well: bool)
        ensures
            well == self@.well_terminated(),
    {
        let mut b: usize = 0;
        while b < self.basic_blocks.len()
            invariant
                b <= self.basic_blocks@.len(),
                forall|j: int| 0 <= j < b ==> (#[trigger] self@.basic_blocks[j]).well_terminated(),
            decreases self.basic_blocks@.len() - b,
        {
            if !self.basic_blocks[b].is_well_terminated() {
                assert(!self@.basic_blocks[b as int].well_terminated());
                return false;
            }
            b = b + 1;
        }
        true
    }
}

/// The values of a list of functions, in order.
pub open spec fn function_views(functions: Seq<MirFunction>) -> Seq<MirFunctionView> {
    functions.map_values(|f: MirFunction| f@)
}

/// A unit of the high-level intermediate representation. This backend does
/// not read it; the type exists so that input of either shape can be routed.
#[derive(Debug, Clone, PartialEq, Eq)]
pub struct Hir {
    pub name: String,
}

} // verus!
