//! The backend contract: the module handed between the stages, the input
//! shapes, the errors and the optimization levels.

use vstd::prelude::*;
use vstd::string::StringExecFns;
use crate::builder::{append_decimal, decimal};
use crate::codegen::{LlvmModuleView, LlvmModuleWrapper};
use crate::mir::{Hir, MirFunction};

verus! {

/// Whether two strings hold the same characters.
pub fn same_text(a: &str, b: &str) -> (same: bool)
    ensures
        same == (a@ == b@),
{
    let x: String = a.to_owned();
    let y: String = b.to_owned();
    x == y
}

/// A broken invariant of the input: a fault of an earlier compiler stage, not
/// of the user's program. A caller should stop the compilation on one.
#[derive(Debug, Clone, Copy, PartialEq, Eq, Structural)]
pub enum InternalError {
    /// An instruction reads a local that nothing before it has defined.
    UndefinedLocal { id: usize },
    /// An instruction names a block that the function does not have.
    MissingBlock { index: usize },
    /// A type parameter reached code generation without being replaced.
    UnsubstitutedGeneric,
    /// A function reference stands where a value is read. References to
    /// functions are resolved where a call is translated, nowhere else.
    UnresolvedFunction,
}

impl InternalError {
    /// The fault in words.
    pub open spec fn spec_message(self) -> Seq<char> {
        match self {
            InternalError::UndefinedLocal { id } => "undefined local "@ + decimal(id as nat),
            InternalError::MissingBlock { index } => "missing block "@ + decimal(index as nat),
            InternalError::UnsubstitutedGeneric => "unsubstituted generic type"@,
            InternalError::UnresolvedFunction => "unresolved function reference"@,
        }
    }

    /// The fault in words.
    pub fn message(&self) -> (text: String)
        ensures
            text@ == self.spec_message(),
    {
        match self {
            InternalError::UndefinedLocal { id } => {
                let mut text = String::from_str("undefined local ");
                append_decimal(&mut text, *id);
                text
            },
            InternalError::MissingBlock { index } => {
                let mut text = String::from_str("missing block ");
                append_decimal(&mut text, *index);
                text
            },
            InternalError::UnsubstitutedGeneric => String::from_str("unsubstituted generic type"),
            InternalError::UnresolvedFunction => String::from_str("unresolved function reference"),
        }
    }
}

/// Why code generation gave no module.
#[derive(Debug, PartialEq, Eq)]
pub enum CodeGenError {
    /// The input cannot be made into a module.
    GenerationFailed(String),
    /// The target description names no target that the backend knows.
    InvalidTarget(String),
    /// The backend does not do what was asked of it.
    UnsupportedFeature(String),
    /// The input breaks an invariant that an earlier stage owes.
    Internal(InternalError),
}

/// What a [`CodeGenError`] is, as a mathematical value.
pub enum CodeGenErrorView {
    GenerationFailed(Seq<char>),
    InvalidTarget(Seq<char>),
    UnsupportedFeature(Seq<char>),
    Internal(InternalError),
}

impl View for CodeGenError {
    type V = CodeGenErrorView;

    open spec fn view(&self) -> CodeGenErrorView {
        match self {
            CodeGenError::GenerationFailed(m) => CodeGenErrorView::GenerationFailed(m@),
            CodeGenError::InvalidTarget(m) => CodeGenErrorView::InvalidTarget(m@),
            CodeGenError::UnsupportedFeature(m) => CodeGenErrorView::UnsupportedFeature(m@),
            CodeGenError::Internal(e) => CodeGenErrorView::Internal(*e),
        }
    }
}

impl CodeGenErrorView {
    /// The error in words.
    pub open spec fn message(self) -> Seq<char> {
        match self {
            CodeGenErrorView::GenerationFailed(m) => "Code generation failed: "@ + m,
            CodeGenErrorView::InvalidTarget(m) => "Invalid target triple: "@ + m,
            CodeGenErrorView::UnsupportedFeature(m) => "Unsupported feature: "@ + m,
            CodeGenErrorView::Internal(e) => "Internal error: "@ + e.spec_message(),
        }
    }
}

impl CodeGenError {
    /// The error in words.
    pub fn message(&self) -> (text: String)
        ensures
            text@ == self@.message(),
    {
        match self {
            CodeGenError::GenerationFailed(m) => String::from_str("Code generation failed: ").concat(
                m.as_str(),
            ),
            CodeGenError::InvalidTarget(m) => String::from_str("Invalid target triple: ").concat(
                m.as_str(),
            ),
            CodeGenError::UnsupportedFeature(m) => String::from_str("Unsupported feature: ").concat(
                m.as_str(),
            ),
            CodeGenError::Internal(e) => {
                let detail = e.message();
                String::from_str("Internal error: ").concat(detail.as_str())
            },
        }
    }
}

/// Why the optimizer left a module as it was.
#[derive(Debug, PartialEq, Eq)]
pub enum OptimizationError {
    OptimizationFailed(String),
}

impl OptimizationError {
    /// The text that the error carries.
    pub open spec fn detail(self) -> Seq<char> {
        match self {
            OptimizationError::OptimizationFailed(m) => m@,
        }
    }

    /// The error in words.
    pub fn message(&self) -> (text: String)
        ensures
            text@ == "Optimization failed: "@ + self.detail(),
    {
        match self {
            OptimizationError::OptimizationFailed(m) => String::from_str(
                "Optimization failed: ",
            ).concat(m.as_str()),
        }
    }
}

/// Why the emitter produced no artifact.
#[derive(Debug, PartialEq, Eq)]
pub enum EmitError {
    EmissionFailed(String),
}

impl EmitError {
    /// The text that the error carries.
    pub open spec fn detail(self) -> Seq<char> {
        match self {
            EmitError::EmissionFailed(m) => m@,
        }
    }

    /// The error in words.
    pub fn message(&self) -> (text: String)
        ensures
            text@ == "Emission failed: "@ + self.detail(),
    {
        match self {
            EmitError::EmissionFailed(m) => String::from_str("Emission failed: ").concat(
                m.as_str(),
            ),
        }
    }
}

/// How hard the optimizer should work, and for what.
#[derive(Debug, Clone, Copy, PartialEq, Eq, Structural)]
pub enum OptimizationLevel {
    Off,
    Basic,
    Default,
    Aggressive,
    Size,
    SizePerformance,
}

/// The level that a command-line spelling names, if it names one.
pub open spec fn level_named(s: Seq<char>) -> Option<OptimizationLevel> {
    if s == "0"@ {
        Some(OptimizationLevel::Off)
    } else if s == "1"@ {
        Some(OptimizationLevel::Basic)
    } else if s == "2"@ {
        Some(OptimizationLevel::Default)
    } else if s == "3"@ {
        Some(OptimizationLevel::Aggressive)
    } else if s == "s"@ || s == "size"@ {
        Some(OptimizationLevel::Size)
    } else if s == "z"@ || s == "zsize"@ {
        Some(OptimizationLevel::SizePerformance)
    } else {
        None
    }
}

impl OptimizationLevel {
    /// Reads a level from its command-line spelling: `0` to `3`, `s` or
    /// `size`, `z` or `zsize`. Any other text names no level.
    pub fn from_str(s: &str) -> (level: Option<Self>)
        ensures
            level == level_named(s@),
    {
        if same_text(s, "0") {
            Some(Self::Off)
        } else if same_text(s, "1") {
            Some(Self::Basic)
        } else if same_text(s, "2") {
            Some(Self::Default)
        } else if same_text(s, "3") {
            Some(Self::Aggressive)
        } else if same_text(s, "s") || same_text(s, "size") {
            Some(Self::Size)
        } else if same_text(s, "z") || same_text(s, "zsize") {
            Some(Self::SizePerformance)
        } else {
            None
        }
    }
}

/// The two shapes of input.
#[derive(Debug, Clone, Copy, PartialEq, Eq, Structural)]
pub enum BackendInputType {
    Hir,
    Mir,
}

/// Input for a code generator, in one of the two shapes.
#[derive(Debug, Clone, PartialEq, Eq)]
pub enum BackendInput {
    Hir(Vec<Hir>),
    Mir(Vec<MirFunction>),
}

impl BackendInput {
    /// The shape of the input.
    pub open spec fn shape(self) -> BackendInputType {
        match self {
            BackendInput::Hir(_) => BackendInputType::Hir,
            BackendInput::Mir(_) => BackendInputType::Mir,
        }
    }
}

/// What a module carries for the backend that made it.
#[derive(Debug, PartialEq, Eq)]
pub enum ModuleData {
    /// The module of the native-code backend.
    Llvm(LlvmModuleWrapper),
    /// The payload of a backend that generates nothing.
    Null,
}

/// What a [`ModuleData`] is, as a mathematical value.
pub enum ModuleDataView {
    Llvm(LlvmModuleView),
    Null,
}

impl View for ModuleData {
    type V = ModuleDataView;

    open spec fn view(&self) -> ModuleDataView {
        match self {
            ModuleData::Llvm(w) => ModuleDataView::Llvm(w@),
            ModuleData::Null => ModuleDataView::Null,
        }
    }
}

/// A compiled module: the one artifact that code generator, optimizer and
/// emitter hand to each other. It owns its payload.
#[derive(Debug, PartialEq, Eq)]
pub struct Module {
    pub name: String,
    pub data: Option<ModuleData>,
}

/// What a [`Module`] is, as a mathematical value.
pub struct ModuleView {
    pub name: Seq<char>,
    pub data: Option<ModuleDataView>,
}

impl View for Module {
    type V = ModuleView;

    open spec fn view(&self) -> ModuleView {
        ModuleView {
            name: self.name@,
            data: match self.data {
                Some(d) => Some(d@),
                None => None,
            },
        }
    }
}

impl Module {
    /// A module without a payload.
    pub fn new(name: String) -> (module: Self)
        ensures
            module@ == (ModuleView { name: name@, data: None }),
    {
        Self { name, data: None }
    }

    /// A module that owns the given payload.
    pub fn with_data(name: String, data: ModuleData) -> (module: Self)
        ensures
            module@ == (ModuleView { name: name@, data: Some(data@) }),
    {
        Self { name, data: Some(data) }
    }
}

impl Clone for Module {
    /// Copies the name only. The payload has one owner, so the copy has none.
    fn clone(&self) -> (copy: Self)
        ensures
            copy@ == (ModuleView { name: self@.name, data: None }),
    {
        Self { name: self.name.clone(), data: None }
    }
}

/// What a code generator answers to input of a shape that it does not
/// translate.
pub open spec fn unsupported_message(shape: BackendInputType) -> Seq<char> {
    match shape {
        BackendInputType::Hir => "This backend does not support HIR input"@,
        BackendInputType::Mir => "This backend does not support MIR input"@,
    }
}

/// The result is the refusal of input of the given shape.
pub open spec fn refuses(result: Result<Module, CodeGenError>, shape: BackendInputType) -> bool {
    result matches Err(CodeGenError::UnsupportedFeature(m)) && m@ == unsupported_message(shape)
}

/// A code generator. A backend translates one shape of input, or both, and
/// refuses the other with `UnsupportedFeature`.
pub trait CodeGen: Sized {
    /// Whether the backend translates input of this shape.
    spec fn supports(&self, shape: BackendInputType) -> bool;

    /// What the backend makes of input in the high-level form, where it
    /// translates that form: the generator before, the input, the generator
    /// after and the result.
    spec fn from_hir(
        before: Self,
        hir: Seq<Hir>,
        after: Self,
        result: Result<Module, CodeGenError>,
    ) -> bool;

    /// What the backend makes of input in the mid-level form, where it
    /// translates that form.
    spec fn from_mir(
        before: Self,
        mir: Seq<MirFunction>,
        after: Self,
        result: Result<Module, CodeGenError>,
    ) -> bool;

    /// Generates a module from the high-level form. A backend that does not
    /// translate that form refuses and stays as it is.
    fn generate_from_hir(&mut self, hir: &[Hir]) -> (result: Result<Module, CodeGenError>)
        ensures
            (refuses(result, BackendInputType::Hir) && *final(self) == *old(self)) || (old(
                self,
            ).supports(BackendInputType::Hir) && Self::from_hir(
                *old(self),
                hir@,
                *final(self),
                result,
            )),
    {
        Err(
            CodeGenError::UnsupportedFeature(
                String::from_str("This backend does not support HIR input"),
            ),
        )
    }

    /// Generates a module from the mid-level form. A backend that does not
    /// translate that form refuses and stays as it is.
    fn generate_from_mir(&mut self, mir: &[MirFunction]) -> (result: Result<Module, CodeGenError>)
        ensures
            (refuses(result, BackendInputType::Mir) && *final(self) == *old(self)) || (old(
                self,
            ).supports(BackendInputType::Mir) && Self::from_mir(
                *old(self),
                mir@,
                *final(self),
                result,
            )),
    {
        Err(
            CodeGenError::UnsupportedFeature(
                String::from_str("This backend does not support MIR input"),
            ),
        )
    }

    /// Generates a module from input of either shape, by the method for that
    /// shape: the result is what that method gives, and input of a shape that
    /// the backend does not translate is refused.
    fn generate(&mut self, input: BackendInput) -> (result: Result<Module, CodeGenError>)
        ensures
            match input {
                BackendInput::Hir(hir) => (refuses(result, BackendInputType::Hir) && *final(self)
                    == *old(self)) || (old(self).supports(BackendInputType::Hir) && Self::from_hir(
                    *old(self),
                    hir@,
                    *final(self),
                    result,
                )),
                BackendInput::Mir(mir) => (refuses(result, BackendInputType::Mir) && *final(self)
                    == *old(self)) || (old(self).supports(BackendInputType::Mir) && Self::from_mir(
                    *old(self),
                    mir@,
                    *final(self),
                    result,
                )),
            },
    {
        match input {
            BackendInput::Hir(hir) => self.generate_from_hir(hir.as_slice()),
            BackendInput::Mir(mir) => self.generate_from_mir(mir.as_slice()),
        }
    }

    /// Sets the optimization level that the generated module asks for.
    fn set_optimization_level(&mut self, level: OptimizationLevel);

    /// Sets the target description that the generated module is for.
    fn set_target_triple(&mut self, triple: String);

    /// The shape of input that the backend would rather have. The backend
    /// translates that shape.
    fn preferred_input(&self) -> (shape: BackendInputType)
        ensures
            self.supports(shape),
    ;
}

/// An optimizer. It transforms a module in place and leaves it untouched
/// where it fails.
pub trait Optimizer: Sized {
    /// Optimizes the module. The module keeps its name, and where the
    /// optimizer fails the module is as it was.
    fn optimize(&mut self, module: &mut Module) -> (result: Result<(), OptimizationError>)
        ensures
            final(module)@.name == old(module)@.name,
            result is Err ==> final(module)@ == old(module)@,
    ;
}

} // verus!
