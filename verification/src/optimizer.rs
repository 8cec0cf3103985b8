//! The optimizer of the native-code backend. It decides which pass pipeline a
//! module is to be run through and records the decision in the module; the
//! passes themselves are the target toolkit's.

use vstd::prelude::*;
use vstd::string::StringExecFns;
use crate::codegen::LlvmModuleView;
use crate::ports::{
    Module, ModuleData, ModuleDataView, ModuleView, OptimizationError, OptimizationLevel, Optimizer,
};

verus! {

/// The pass pipeline of a level, in the target toolkit's own notation.
pub open spec fn pipeline_text(level: OptimizationLevel) -> Seq<char> {
    match level {
        OptimizationLevel::Off => "default<O0>"@,
        OptimizationLevel::Basic => "default<O1>"@,
        OptimizationLevel::Default => "default<O2>"@,
        OptimizationLevel::Aggressive => "default<O3>"@,
        OptimizationLevel::Size => "default<Os>"@,
        OptimizationLevel::SizePerformance => "default<Oz>"@,
    }
}

/// What the optimizer says of a module that is not this backend's.
pub open spec fn foreign_module_message() -> Seq<char> {
    "Module does not contain LLVM module"@
}

impl OptimizationLevel {
    /// The pass pipeline of the level, in the target toolkit's own notation.
    pub fn pipeline(&self) -> (text: &'static str)
        ensures
            text@ == pipeline_text(*self),
    {
        match self {
            OptimizationLevel::Off => "default<O0>",
            OptimizationLevel::Basic => "default<O1>",
            OptimizationLevel::Default => "default<O2>",
            OptimizationLevel::Aggressive => "default<O3>",
            OptimizationLevel::Size => "default<Os>",
            OptimizationLevel::SizePerformance => "default<Oz>",
        }
    }
}

/// The optimizer of the native-code backend.
#[derive(Debug, Clone, Copy, PartialEq, Eq, Structural)]
pub struct LlvmOptimizer {
    pub opt_level: OptimizationLevel,
}

/// The module after an optimization run at a level was asked for: the run is
/// recorded after those asked for before. Functions and blocks are as they
/// were.
pub open spec fn scheduled(module: ModuleView, level: OptimizationLevel) -> ModuleView
    recommends
        module.data matches Some(ModuleDataView::Llvm(_)),
{
    let payload = module.data->0->Llvm_0;
    ModuleView {
        data: Some(
            ModuleDataView::Llvm(LlvmModuleView { passes: payload.passes.push(level), ..payload }),
        ),
        ..module
    }
}

impl LlvmOptimizer {
    /// An optimizer at the default level.
    pub fn new() -> (optimizer: Self)
        ensures
            optimizer.opt_level == OptimizationLevel::Default,
    {
        Self { opt_level: OptimizationLevel::Default }
    }

    /// An optimizer at the given level.
    pub fn with_level(level: OptimizationLevel) -> (optimizer: Self)
        ensures
            optimizer.opt_level == level,
    {
        Self { opt_level: level }
    }
}

impl Optimizer for LlvmOptimizer {
    /// Asks for one run of the pipeline of the optimizer's level over the
    /// module. A module without a payload, or with the payload of another
    /// backend, is refused and stays as it is.
    fn optimize(&mut self, module: &mut Module) -> (result: Result<(), OptimizationError>)
        ensures
            *final(self) == *old(self),
            match old(module)@.data {
                Some(ModuleDataView::Llvm(_)) => result is Ok && final(module)@ == scheduled(
                    old(module)@,
                    old(self).opt_level,
                ),
                _ => {
                    &&& result matches Err(OptimizationError::OptimizationFailed(m))
                    &&& m@ == foreign_module_message()
                    &&& final(module)@ == old(module)@
                },
            },
    {
        match module.data.take() {
            Some(ModuleData::Llvm(mut wrapper)) => {
                wrapper.passes.push(self.opt_level);
                module.data = Some(ModuleData::Llvm(wrapper));
                Ok(())
            },
            other => {
                module.data = other;
                Err(
                    OptimizationError::OptimizationFailed(
                        String::from_str("Module does not contain LLVM module"),
                    ),
                )
            },
        }
    }
}

impl Default for LlvmOptimizer {
    /// An optimizer at the default level.
    fn default() -> (optimizer: Self)
        ensures
            optimizer.opt_level == OptimizationLevel::Default,
    {
        Self::new()
    }
}

} // verus!
