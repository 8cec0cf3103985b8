//! The factory of the native-code backend: it makes the three objects that
//! work on one kind of module.

use vstd::prelude::*;
use crate::codegen::{default_triple, generation, module_name, LlvmCodeGen, LlvmCodeGenView};
use crate::emitter::{
    begins, EmitActionView, EmitEventView, EmitFormat, EmitSession, LlvmEmitter,
};
use crate::mir::MirFunctionView;
use crate::optimizer::{scheduled, LlvmOptimizer};
use crate::ports::{
    CodeGen, CodeGenError, EmitError, Module, ModuleData, ModuleDataView, OptimizationLevel,
    Optimizer,
};
use crate::target::TargetModuleView;

verus! {

/// The families of backend.
#[derive(Debug, Clone, Copy, PartialEq, Eq, Structural)]
pub enum BackendType {
    /// The backend that generates native code.
    Llvm,
    /// The backend that generates nothing.
    Null,
}

/// Why a factory made no object.
#[derive(Debug, PartialEq, Eq)]
pub enum BackendError {
    InitializationFailed(String),
}

/// The family of the backend that made a payload.
pub open spec fn payload_family(data: ModuleDataView) -> BackendType {
    match data {
        ModuleDataView::Llvm(_) => BackendType::Llvm,
        ModuleDataView::Null => BackendType::Null,
    }
}

impl ModuleData {
    /// The family of the backend that made the payload. An optimizer or an
    /// emitter works on the payloads of its own family only.
    pub fn backend_type(&self) -> (family: BackendType)
        ensures
            family == payload_family(self@),
    {
        match self {
            ModuleData::Llvm(_) => BackendType::Llvm,
            ModuleData::Null => BackendType::Null,
        }
    }
}

/// A factory makes a code generator, an optimizer and an emitter of one
/// family.
pub trait BackendFactory {
    /// The family's code generator.
    type Generator: CodeGen;

    /// The family's optimizer.
    type Optimizer: Optimizer;

    /// The family's emitter.
    type Emitter;

    /// Makes a code generator.
    fn create_codegen(&self) -> Result<Self::Generator, BackendError>;

    /// Makes an optimizer.
    fn create_optimizer(&self) -> Result<Self::Optimizer, BackendError>;

    /// Makes an emitter.
    fn create_emitter(&self) -> Result<Self::Emitter, BackendError>;

    /// The family of the objects that the factory makes.
    fn backend_type(&self) -> BackendType;
}

/// The factory of the native-code backend.
#[derive(Debug, Clone, Copy, PartialEq, Eq, Structural)]
pub struct LlvmBackendFactory;

impl BackendFactory for LlvmBackendFactory {
    type Generator = LlvmCodeGen;

    type Optimizer = LlvmOptimizer;

    type Emitter = LlvmEmitter;

    /// A new code generator, as `LlvmCodeGen::new` makes it.
    fn create_codegen(&self) -> (made: Result<LlvmCodeGen, BackendError>)
        ensures
            made matches Ok(generator) && generator@ == (LlvmCodeGenView {
                module: Some(
                    TargetModuleView {
                        name: module_name(),
                        target_triple: default_triple(),
                        functions: Seq::empty(),
                    },
                ),
                opt_level: OptimizationLevel::Default,
                target_triple: default_triple(),
            }),
    {
        Ok(LlvmCodeGen::new())
    }

    /// A new optimizer at the default level.
    fn create_optimizer(&self) -> (made: Result<LlvmOptimizer, BackendError>)
        ensures
            made matches Ok(optimizer) && optimizer.opt_level == OptimizationLevel::Default,
    {
        Ok(LlvmOptimizer::new())
    }

    /// A new emitter.
    fn create_emitter(&self) -> (made: Result<LlvmEmitter, BackendError>)
        ensures
            made is Ok,
    {
        Ok(LlvmEmitter::new())
    }

    /// This factory is of the native-code family.
    fn backend_type(&self) -> (family: BackendType)
        ensures
            family == BackendType::Llvm,
    {
        BackendType::Llvm
    }
}

/// The three objects of this factory work on one kind of module.
///
/// The payload of a module that the code generator made is of this family,
/// and stays so when optimization runs are asked for. So the optimizer
/// accepts the module, and the emitter begins a session for it, whatever the
/// artifact.
pub proof fn lemma_stages_agree(
    before: LlvmCodeGenView,
    mir: Seq<MirFunctionView>,
    after: LlvmCodeGenView,
    generated: Result<Module, CodeGenError>,
    level: OptimizationLevel,
    format: EmitFormat,
    plain: Result<EmitSession, EmitError>,
    optimized: Result<EmitSession, EmitError>,
)
    requires
        generation(before, mir, after, generated),
        generated is Ok,
        begins(generated->Ok_0@, format, plain),
        begins(scheduled(generated->Ok_0@, level), format, optimized),
    ensures
        generated->Ok_0@.data is Some,
        payload_family(generated->Ok_0@.data->0) == BackendType::Llvm,
        payload_family(scheduled(generated->Ok_0@, level).data->0) == BackendType::Llvm,
        plain is Ok,
        optimized is Ok,
        optimized->Ok_0@.action() is RunPasses,
{
}

/// The text form of a generated module takes one action of the toolkit.
///
/// For a module that the code generator made, and that no optimization run
/// was asked for, the emitter begins a session that asks for the text to be
/// written; when that is done the emission has succeeded.
pub proof fn lemma_text_of_a_generated_module(
    before: LlvmCodeGenView,
    mir: Seq<MirFunctionView>,
    after: LlvmCodeGenView,
    generated: Result<Module, CodeGenError>,
    started: Result<EmitSession, EmitError>,
)
    requires
        generation(before, mir, after, generated),
        generated is Ok,
        begins(generated->Ok_0@, EmitFormat::LlvmIr, started),
    ensures
        started is Ok,
        started->Ok_0@.action() == EmitActionView::WriteIr,
        started->Ok_0@.advance(EmitEventView::Done).action() == EmitActionView::Finish(None),
{
}

} // verus!
