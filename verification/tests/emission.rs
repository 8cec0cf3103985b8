use emerald_backend::codegen::LlvmCodeGen;
use emerald_backend::emitter::{
    machine_level_of, CodeGenLevel, Destination, EmitAction, EmitEvent, EmitFormat, EmitSession,
    FileType, LlvmEmitter,
};
use emerald_backend::mir::{BasicBlock, Constant, Instruction, MirFunction, Operand};
use emerald_backend::optimizer::LlvmOptimizer;
use emerald_backend::ports::{
    CodeGen, EmitError, Module, ModuleData, OptimizationLevel, Optimizer,
};

fn valid_module(level: OptimizationLevel) -> Module {
    let main = MirFunction {
        name: "main".to_string(),
        params: Vec::new(),
        return_type: None,
        basic_blocks: vec![BasicBlock {
            instructions: vec![Instruction::Ret {
                value: Some(Operand::Constant(Constant::Int(0))),
            }],
        }],
    };
    let mut generator = LlvmCodeGen::new();
    generator.set_optimization_level(level);
    generator.generate_from_mir(&[main]).expect("well-formed input")
}

fn session(format: EmitFormat) -> EmitSession {
    LlvmEmitter::new()
        .begin(&valid_module(OptimizationLevel::Default), format)
        .expect("a module of this backend")
}

fn triple() -> String {
    "x86_64-unknown-linux-gnu".to_string()
}

fn failed(text: &str) -> EmitAction {
    EmitAction::Finish(Err(EmitError::EmissionFailed(text.to_string())))
}

#[test]
fn ir_text_of_a_valid_module_is_one_step() {
    let module = valid_module(OptimizationLevel::Default);
    let mut session = LlvmEmitter::new().emit_llvm_ir(&module).expect("a module of this backend");
    assert!(!session.is_finished());
    assert_eq!(session.action(), EmitAction::WriteIr);
    session.advance(EmitEvent::Done);
    assert!(session.is_finished());
    assert_eq!(session.action(), EmitAction::Finish(Ok(())));
    session.advance(EmitEvent::Failed(Some("late".to_string())));
    assert_eq!(session.action(), EmitAction::Finish(Ok(())));
}

#[test]
fn ir_text_failure_carries_the_toolchain_text_or_a_default() {
    let mut said = session(EmitFormat::LlvmIr);
    said.advance(EmitEvent::Failed(Some("disk full".to_string())));
    assert_eq!(said.action(), failed("disk full"));
    let mut silent = session(EmitFormat::LlvmIr);
    silent.advance(EmitEvent::Failed(None));
    assert_eq!(silent.action(), failed("Failed to generate LLVM IR"));
}

#[test]
fn object_emission_steps() {
    let module = valid_module(OptimizationLevel::Default);
    let mut session = LlvmEmitter::new().emit_object(&module).expect("a module of this backend");
    assert_eq!(session.action(), EmitAction::LookupTarget { triple: triple() });
    session.advance(EmitEvent::Done);
    assert_eq!(
        session.action(),
        EmitAction::CreateMachine { triple: triple(), level: CodeGenLevel::Default }
    );
    session.advance(EmitEvent::Done);
    assert_eq!(
        session.action(),
        EmitAction::EmitFile { file_type: FileType::Object, destination: Destination::Output }
    );
    session.advance(EmitEvent::Done);
    assert_eq!(session.action(), EmitAction::DisposeMachine);
    session.advance(EmitEvent::Done);
    assert_eq!(session.action(), EmitAction::Finish(Ok(())));
}

#[test]
fn assembly_emission_steps() {
    let module = valid_module(OptimizationLevel::Default);
    let mut session = LlvmEmitter::new().emit_assembly(&module).expect("a module of this backend");
    session.advance(EmitEvent::Done);
    session.advance(EmitEvent::Done);
    assert_eq!(
        session.action(),
        EmitAction::EmitFile { file_type: FileType::Assembly, destination: Destination::Output }
    );
    session.advance(EmitEvent::Done);
    assert_eq!(session.action(), EmitAction::DisposeMachine);
    session.advance(EmitEvent::Done);
    assert_eq!(session.action(), EmitAction::Finish(Ok(())));
}

#[test]
fn binary_emission_links_the_object_beside_the_output() {
    let module = valid_module(OptimizationLevel::Default);
    let mut session = LlvmEmitter::new().emit_binary(&module).expect("a module of this backend");
    assert_eq!(session.action(), EmitAction::LookupTarget { triple: triple() });
    session.advance(EmitEvent::Done);
    session.advance(EmitEvent::Done);
    assert_eq!(
        session.action(),
        EmitAction::EmitFile {
            file_type: FileType::Object,
            destination: Destination::ObjectSibling,
        }
    );
    session.advance(EmitEvent::Done);
    assert_eq!(session.action(), EmitAction::Link);
    session.advance(EmitEvent::Done);
    assert_eq!(session.action(), EmitAction::DisposeMachine);
    session.advance(EmitEvent::Done);
    assert_eq!(session.action(), EmitAction::Finish(Ok(())));
}

#[test]
fn unknown_target_ends_the_session() {
    let mut binary = session(EmitFormat::Binary);
    binary.advance(EmitEvent::Failed(None));
    assert_eq!(binary.action(), failed("Failed to get target for triple: x86_64-unknown-linux-gnu"));
    let mut object = session(EmitFormat::Object);
    object.advance(EmitEvent::Failed(None));
    assert_eq!(object.action(), failed("Failed to get target"));
    let mut assembly = session(EmitFormat::Assembly);
    assembly.advance(EmitEvent::Failed(Some("No available targets".to_string())));
    assert_eq!(assembly.action(), failed("No available targets"));
}

#[test]
fn machine_that_cannot_be_made_ends_the_session() {
    let mut object = session(EmitFormat::Object);
    object.advance(EmitEvent::Done);
    object.advance(EmitEvent::Failed(None));
    assert_eq!(object.action(), failed("Failed to create target machine"));
}

#[test]
fn failed_file_disposes_of_the_machine_first() {
    let mut object = session(EmitFormat::Object);
    object.advance(EmitEvent::Done);
    object.advance(EmitEvent::Done);
    object.advance(EmitEvent::Failed(None));
    assert_eq!(object.action(), EmitAction::DisposeMachine);
    assert!(!object.is_finished());
    object.advance(EmitEvent::Done);
    assert_eq!(object.action(), failed("Unknown error"));
    let mut binary = session(EmitFormat::Binary);
    binary.advance(EmitEvent::Done);
    binary.advance(EmitEvent::Done);
    binary.advance(EmitEvent::Failed(Some("cannot open file".to_string())));
    assert_eq!(binary.action(), EmitAction::DisposeMachine);
    binary.advance(EmitEvent::Failed(Some("while disposing".to_string())));
    assert_eq!(binary.action(), failed("cannot open file"));
}

#[test]
fn failed_link_disposes_of_the_machine_first() {
    let mut binary = session(EmitFormat::Binary);
    binary.advance(EmitEvent::Done);
    binary.advance(EmitEvent::Done);
    binary.advance(EmitEvent::Done);
    assert_eq!(binary.action(), EmitAction::Link);
    binary.advance(EmitEvent::Failed(None));
    assert_eq!(binary.action(), EmitAction::DisposeMachine);
    binary.advance(EmitEvent::Done);
    assert_eq!(binary.action(), failed("Failed to link"));
}

#[test]
fn failure_while_disposing_does_not_spoil_a_success() {
    let mut object = session(EmitFormat::Object);
    object.advance(EmitEvent::Done);
    object.advance(EmitEvent::Done);
    object.advance(EmitEvent::Done);
    object.advance(EmitEvent::Failed(Some("ignored".to_string())));
    assert_eq!(object.action(), EmitAction::Finish(Ok(())));
}

#[test]
fn every_session_finishes_within_five_answers() {
    let formats =
        [EmitFormat::Binary, EmitFormat::Assembly, EmitFormat::LlvmIr, EmitFormat::Object];
    for format in formats {
        for pattern in 0u32..32 {
            let mut current = session(format);
            for round in 0..5 {
                let event = if pattern & (1 << round) == 0 {
                    EmitEvent::Done
                } else {
                    EmitEvent::Failed(None)
                };
                current.advance(event);
            }
            assert!(current.is_finished());
            assert!(matches!(current.action(), EmitAction::Finish(_)));
        }
    }
}

#[test]
fn passes_that_were_asked_for_run_first() {
    let mut module = valid_module(OptimizationLevel::Default);
    LlvmOptimizer::new().optimize(&mut module).expect("a module of this backend");
    LlvmOptimizer::with_level(OptimizationLevel::Size)
        .optimize(&mut module)
        .expect("a module of this backend");
    let mut text = LlvmEmitter::new().emit_llvm_ir(&module).expect("a module of this backend");
    assert_eq!(
        text.action(),
        EmitAction::RunPasses {
            pipelines: vec!["default<O2>".to_string(), "default<Os>".to_string()],
        }
    );
    text.advance(EmitEvent::Done);
    assert_eq!(text.action(), EmitAction::WriteIr);
    let mut object = LlvmEmitter::new().emit_object(&module).expect("a module of this backend");
    assert!(matches!(object.action(), EmitAction::RunPasses { .. }));
    object.advance(EmitEvent::Done);
    assert_eq!(object.action(), EmitAction::LookupTarget { triple: triple() });
    let mut failing = LlvmEmitter::new().emit_binary(&module).expect("a module of this backend");
    failing.advance(EmitEvent::Failed(None));
    assert_eq!(failing.action(), failed("Failed to run optimization passes"));
    let mut telling = LlvmEmitter::new().emit_binary(&module).expect("a module of this backend");
    telling.advance(EmitEvent::Failed(Some("unknown pass".to_string())));
    assert_eq!(telling.action(), failed("unknown pass"));
}

#[test]
fn optimized_session_finishes_within_six_answers() {
    let mut module = valid_module(OptimizationLevel::Default);
    LlvmOptimizer::new().optimize(&mut module).expect("a module of this backend");
    let formats =
        [EmitFormat::Binary, EmitFormat::Assembly, EmitFormat::LlvmIr, EmitFormat::Object];
    for format in formats {
        for pattern in 0u32..64 {
            let mut current =
                LlvmEmitter::new().begin(&module, format).expect("a module of this backend");
            for round in 0..6 {
                let event = if pattern & (1 << round) == 0 {
                    EmitEvent::Done
                } else {
                    EmitEvent::Failed(None)
                };
                current.advance(event);
            }
            assert!(current.is_finished());
        }
    }
}

#[test]
fn module_of_another_backend_is_refused() {
    let emitter = LlvmEmitter::default();
    let refusal = EmitError::EmissionFailed("Module does not contain LLVM module".to_string());
    let without_payload = Module::new("m".to_string());
    let foreign = Module::with_data("m".to_string(), ModuleData::Null);
    assert_eq!(emitter.emit_binary(&without_payload).err(), Some(refusal));
    let refusal = EmitError::EmissionFailed("Module does not contain LLVM module".to_string());
    assert_eq!(emitter.emit_assembly(&foreign).err(), Some(refusal));
    let refusal = EmitError::EmissionFailed("Module does not contain LLVM module".to_string());
    assert_eq!(emitter.emit_llvm_ir(&foreign).err(), Some(refusal));
    let refusal = EmitError::EmissionFailed("Module does not contain LLVM module".to_string());
    assert_eq!(emitter.emit_object(&without_payload).err(), Some(refusal));
}

#[test]
fn module_level_and_target_govern_the_machine() {
    assert_eq!(machine_level_of(OptimizationLevel::Off), CodeGenLevel::Unoptimized);
    assert_eq!(machine_level_of(OptimizationLevel::Basic), CodeGenLevel::Less);
    assert_eq!(machine_level_of(OptimizationLevel::Default), CodeGenLevel::Default);
    assert_eq!(machine_level_of(OptimizationLevel::Aggressive), CodeGenLevel::Aggressive);
    assert_eq!(machine_level_of(OptimizationLevel::Size), CodeGenLevel::Default);
    assert_eq!(machine_level_of(OptimizationLevel::SizePerformance), CodeGenLevel::Default);
    let mut generator = LlvmCodeGen::new();
    generator.set_optimization_level(OptimizationLevel::Aggressive);
    generator.set_target_triple("riscv64-unknown-elf".to_string());
    let module = generator.generate_from_mir(&[]).unwrap();
    let mut session = LlvmEmitter::new().emit_object(&module).unwrap();
    assert_eq!(
        session.action(),
        EmitAction::LookupTarget { triple: "riscv64-unknown-elf".to_string() }
    );
    session.advance(EmitEvent::Done);
    assert_eq!(
        session.action(),
        EmitAction::CreateMachine {
            triple: "riscv64-unknown-elf".to_string(),
            level: CodeGenLevel::Aggressive,
        }
    );
}
