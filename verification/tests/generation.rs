use emerald_backend::codegen::{add_function, lower_function, LlvmCodeGen, LlvmModuleWrapper};
use emerald_backend::factory::{BackendFactory, BackendType, LlvmBackendFactory};
use emerald_backend::mir::{
    BasicBlock, Constant, Hir, Instruction, Local, MirFunction, Operand, Param, PrimitiveType, Type,
};
use emerald_backend::optimizer::LlvmOptimizer;
use emerald_backend::ports::{
    same_text, BackendInput, BackendInputType, CodeGen, CodeGenError, EmitError, InternalError,
    Module, ModuleData, OptimizationError, OptimizationLevel, Optimizer,
};
use emerald_backend::target::{
    BinaryOp, TargetBlock, TargetFunction, TargetInst, TargetModule, TargetType, TargetValue,
};

fn int_type() -> Type {
    Type::Primitive(PrimitiveType::Int)
}

fn local(id: usize) -> Operand {
    Operand::Local(Local { id })
}

fn int_const(value: i32) -> Operand {
    Operand::Constant(Constant::Int(value))
}

fn param(id: usize, type_: Type) -> Param {
    Param { type_, local: Local { id } }
}

fn block(instructions: Vec<Instruction>) -> BasicBlock {
    BasicBlock { instructions }
}

fn add_function_mir() -> MirFunction {
    MirFunction {
        name: "add".to_string(),
        params: vec![param(0, int_type()), param(1, int_type())],
        return_type: Some(int_type()),
        basic_blocks: vec![block(vec![
            Instruction::Add {
                dest: Local { id: 2 },
                left: local(0),
                right: local(1),
                type_: int_type(),
            },
            Instruction::Ret { value: Some(local(2)) },
        ])],
    }
}

fn returning(name: &str, value: i32) -> MirFunction {
    MirFunction {
        name: name.to_string(),
        params: Vec::new(),
        return_type: Some(int_type()),
        basic_blocks: vec![block(vec![Instruction::Ret { value: Some(int_const(value)) }])],
    }
}

fn payload_of(module: &Module) -> &LlvmModuleWrapper {
    match &module.data {
        Some(ModuleData::Llvm(wrapper)) => wrapper,
        _ => panic!("the module has no payload of this backend"),
    }
}

#[test]
fn add_of_two_parameters() {
    let function = lower_function(&add_function_mir()).expect("well-formed input");
    assert_eq!(
        function,
        TargetFunction {
            name: "add".to_string(),
            ret: TargetType::Int { bits: 32 },
            params: vec![TargetType::Int { bits: 32 }, TargetType::Int { bits: 32 }],
            blocks: vec![TargetBlock {
                label: "bb0".to_string(),
                insts: vec![
                    TargetInst::Binary {
                        op: BinaryOp::Add,
                        left: TargetValue::Param { index: 0 },
                        right: TargetValue::Param { index: 1 },
                    },
                    TargetInst::Ret { value: Some(TargetValue::Inst { block: 0, index: 0 }) },
                ],
            }],
        }
    );
}

#[test]
fn conditional_branch_to_later_blocks() {
    let mir = MirFunction {
        name: "choose".to_string(),
        params: vec![param(0, Type::Primitive(PrimitiveType::Bool))],
        return_type: Some(int_type()),
        basic_blocks: vec![
            block(vec![Instruction::Br { condition: local(0), then_bb: 1, else_bb: 2 }]),
            block(vec![Instruction::Ret { value: Some(int_const(10)) }]),
            block(vec![Instruction::Ret { value: Some(int_const(20)) }]),
        ],
    };
    let function = lower_function(&mir).expect("well-formed input");
    assert_eq!(function.blocks.len(), 3);
    assert_eq!(function.params, vec![TargetType::Int { bits: 1 }]);
    assert_eq!(
        function.blocks[0].insts,
        vec![TargetInst::CondBr {
            condition: TargetValue::Param { index: 0 },
            then_block: 1,
            else_block: 2,
        }]
    );
    assert_eq!(
        function.blocks[1].insts,
        vec![TargetInst::Ret { value: Some(TargetValue::ConstInt { bits: 32, value: 10 }) }]
    );
    assert_eq!(
        function.blocks[2].insts,
        vec![TargetInst::Ret { value: Some(TargetValue::ConstInt { bits: 32, value: 20 }) }]
    );
}

#[test]
fn conditional_branch_with_targets_in_reverse_order() {
    let mir = MirFunction {
        name: "choose".to_string(),
        params: vec![param(0, Type::Primitive(PrimitiveType::Bool))],
        return_type: Some(int_type()),
        basic_blocks: vec![
            block(vec![Instruction::Br { condition: local(0), then_bb: 2, else_bb: 1 }]),
            block(vec![Instruction::Ret { value: Some(int_const(20)) }]),
            block(vec![Instruction::Ret { value: Some(int_const(10)) }]),
        ],
    };
    let function = lower_function(&mir).expect("well-formed input");
    assert_eq!(function.blocks.len(), 3);
    assert_eq!(
        function.blocks[0].insts,
        vec![TargetInst::CondBr {
            condition: TargetValue::Param { index: 0 },
            then_block: 2,
            else_block: 1,
        }]
    );
    assert_eq!(
        function.blocks[2].insts,
        vec![TargetInst::Ret { value: Some(TargetValue::ConstInt { bits: 32, value: 10 }) }]
    );
}

#[test]
fn backward_jump() {
    let mir = MirFunction {
        name: "spin".to_string(),
        params: Vec::new(),
        return_type: None,
        basic_blocks: vec![
            block(vec![Instruction::Jump { target: 1 }]),
            block(vec![Instruction::Jump { target: 0 }]),
        ],
    };
    let function = lower_function(&mir).expect("well-formed input");
    assert_eq!(function.ret, TargetType::Void);
    assert_eq!(function.blocks[0].insts, vec![TargetInst::Br { target: 1 }]);
    assert_eq!(function.blocks[1].insts, vec![TargetInst::Br { target: 0 }]);
}

#[test]
fn merge_of_two_constants() {
    let mir = MirFunction {
        name: "merge".to_string(),
        params: vec![param(0, Type::Primitive(PrimitiveType::Bool))],
        return_type: Some(int_type()),
        basic_blocks: vec![
            block(vec![Instruction::Br { condition: local(0), then_bb: 1, else_bb: 2 }]),
            block(vec![Instruction::Jump { target: 3 }]),
            block(vec![Instruction::Jump { target: 3 }]),
            block(vec![
                Instruction::Phi {
                    dest: Local { id: 1 },
                    type_: int_type(),
                    incoming: vec![(int_const(1), 1), (int_const(2), 2)],
                },
                Instruction::Ret { value: Some(local(1)) },
            ]),
        ],
    };
    let function = lower_function(&mir).expect("well-formed input");
    assert_eq!(function.blocks.len(), 4);
    assert_eq!(
        function.blocks[3].insts,
        vec![
            TargetInst::Phi {
                ty: TargetType::Int { bits: 32 },
                incoming: vec![
                    (TargetValue::ConstInt { bits: 32, value: 1 }, 1),
                    (TargetValue::ConstInt { bits: 32, value: 2 }, 2),
                ],
            },
            TargetInst::Ret { value: Some(TargetValue::Inst { block: 3, index: 0 }) },
        ]
    );
}

#[test]
fn locals_are_function_scoped() {
    let mir = MirFunction {
        name: "f".to_string(),
        params: vec![param(0, int_type())],
        return_type: Some(int_type()),
        basic_blocks: vec![
            block(vec![
                Instruction::Mul {
                    dest: Local { id: 1 },
                    left: local(0),
                    right: int_const(2),
                    type_: int_type(),
                },
                Instruction::Jump { target: 1 },
            ]),
            block(vec![Instruction::Ret { value: Some(local(1)) }]),
        ],
    };
    let function = lower_function(&mir).expect("well-formed input");
    assert_eq!(
        function.blocks[1].insts,
        vec![TargetInst::Ret { value: Some(TargetValue::Inst { block: 0, index: 0 }) }]
    );
}

#[test]
fn use_before_definition_is_an_internal_error() {
    let mir = MirFunction {
        name: "f".to_string(),
        params: Vec::new(),
        return_type: Some(int_type()),
        basic_blocks: vec![
            block(vec![Instruction::Ret { value: Some(local(1)) }]),
            block(vec![Instruction::Copy { dest: Local { id: 1 }, source: int_const(1), type_: int_type() }]),
        ],
    };
    assert_eq!(lower_function(&mir), Err(InternalError::UndefinedLocal { id: 1 }));
}

#[test]
fn first_fault_in_program_order_is_reported() {
    let mir = MirFunction {
        name: "f".to_string(),
        params: Vec::new(),
        return_type: None,
        basic_blocks: vec![
            block(vec![Instruction::Jump { target: 7 }, Instruction::Ret { value: Some(local(1)) }]),
            block(vec![Instruction::Ret { value: Some(local(2)) }]),
        ],
    };
    assert_eq!(lower_function(&mir), Err(InternalError::MissingBlock { index: 7 }));
}

#[test]
fn generic_in_signature_is_an_internal_error() {
    let generic = Type::Generic { name: "T".to_string() };
    let in_param = MirFunction {
        name: "f".to_string(),
        params: vec![param(0, int_type()), param(1, generic.clone())],
        return_type: None,
        basic_blocks: Vec::new(),
    };
    assert_eq!(lower_function(&in_param), Err(InternalError::UnsubstitutedGeneric));
    let in_return = MirFunction {
        name: "f".to_string(),
        params: Vec::new(),
        return_type: Some(generic),
        basic_blocks: Vec::new(),
    };
    assert_eq!(lower_function(&in_return), Err(InternalError::UnsubstitutedGeneric));
}

#[test]
fn function_without_blocks_is_a_declaration() {
    let mir = MirFunction {
        name: "puts".to_string(),
        params: vec![param(0, Type::String)],
        return_type: Some(int_type()),
        basic_blocks: Vec::new(),
    };
    let function = lower_function(&mir).expect("well-formed input");
    assert!(function.blocks.is_empty());
    assert_eq!(function.name, "puts");
    assert_eq!(
        function.params,
        vec![TargetType::Pointer { pointee: Box::new(TargetType::Int { bits: 8 }) }]
    );
}

#[test]
fn void_primitive_return_differs_from_no_return_type_only_in_the_source() {
    let declared_void = MirFunction {
        name: "f".to_string(),
        params: Vec::new(),
        return_type: Some(Type::Primitive(PrimitiveType::Void)),
        basic_blocks: vec![block(vec![Instruction::Ret { value: None }])],
    };
    let function = lower_function(&declared_void).expect("well-formed input");
    assert_eq!(function.ret, TargetType::Void);
    assert_eq!(function.blocks[0].insts, vec![TargetInst::Ret { value: None }]);
}

#[test]
fn later_parameter_with_the_same_local_wins() {
    let mir = MirFunction {
        name: "f".to_string(),
        params: vec![param(0, int_type()), param(0, int_type())],
        return_type: Some(int_type()),
        basic_blocks: vec![block(vec![Instruction::Ret { value: Some(local(0)) }])],
    };
    let function = lower_function(&mir).expect("well-formed input");
    assert_eq!(
        function.blocks[0].insts,
        vec![TargetInst::Ret { value: Some(TargetValue::Param { index: 1 }) }]
    );
}

#[test]
fn block_without_terminator_is_translated_as_it_is() {
    let mir = MirFunction {
        name: "f".to_string(),
        params: Vec::new(),
        return_type: None,
        basic_blocks: vec![block(vec![Instruction::Alloca {
            dest: Local { id: 0 },
            type_: int_type(),
        }])],
    };
    let function = lower_function(&mir).expect("translation does not check for terminators");
    assert_eq!(
        function.blocks[0].insts,
        vec![TargetInst::Alloca { ty: TargetType::Int { bits: 32 } }]
    );
}

#[test]
fn new_generator_holds_an_empty_module() {
    let generator = LlvmCodeGen::new();
    let module = generator.get_module().expect("a new generator holds a module");
    assert_eq!(module.name, "emerald_module");
    assert_eq!(module.target_triple, "x86_64-unknown-linux-gnu");
    assert!(module.functions.is_empty());
    assert_eq!(generator.optimization_level(), OptimizationLevel::Default);
    assert_eq!(generator.target_triple(), "x86_64-unknown-linux-gnu");
    assert_eq!(LlvmCodeGen::default_target_triple(), "x86_64-unknown-linux-gnu");
    assert_eq!(generator.preferred_input(), BackendInputType::Mir);
}

#[test]
fn generation_hands_the_module_over_once() {
    let mut generator = LlvmCodeGen::new();
    let module = generator
        .generate_from_mir(&[add_function_mir(), returning("one", 1)])
        .expect("well-formed input");
    assert_eq!(module.name, "emerald_module");
    let payload = payload_of(&module);
    assert_eq!(payload.get().functions.len(), 2);
    assert_eq!(payload.get().functions[0].name, "add");
    assert_eq!(payload.get().functions[1].name, "one");
    assert_eq!(payload.get().functions[0], lower_function(&add_function_mir()).unwrap());
    assert!(payload.passes.is_empty());
    assert!(generator.get_module().is_none());
    assert_eq!(
        generator.generate_from_mir(&[returning("two", 2)]),
        Err(CodeGenError::GenerationFailed("the module was already handed over".to_string()))
    );
    assert!(generator.get_module().is_none());
    assert_eq!(
        generator.translate_function(&returning("two", 2)),
        Err(CodeGenError::GenerationFailed("the module was already handed over".to_string()))
    );
    drop(generator);
    assert_eq!(payload_of(&module).get().functions.len(), 2);
}

#[test]
fn generation_of_nothing_gives_an_empty_module() {
    let mut generator = LlvmCodeGen::new();
    let module = generator.generate_from_mir(&[]).expect("nothing can fail");
    assert!(payload_of(&module).get().functions.is_empty());
    assert!(generator.get_module().is_none());
}

#[test]
fn target_and_level_travel_with_the_module() {
    let mut generator = LlvmCodeGen::new();
    generator.set_target_triple("aarch64-unknown-linux-gnu".to_string());
    generator.set_optimization_level(OptimizationLevel::Aggressive);
    assert_eq!(generator.target_triple(), "aarch64-unknown-linux-gnu");
    assert_eq!(generator.optimization_level(), OptimizationLevel::Aggressive);
    let module = generator.generate_from_mir(&[returning("one", 1)]).expect("well-formed input");
    let payload = payload_of(&module);
    assert_eq!(payload.get().target_triple, "aarch64-unknown-linux-gnu");
    assert_eq!(payload.opt_level, OptimizationLevel::Aggressive);
}

#[test]
fn duplicate_function_is_refused_and_nothing_is_kept() {
    let mut generator = LlvmCodeGen::new();
    let result = generator.generate_from_mir(&[returning("f", 1), returning("g", 2), returning("f", 3)]);
    assert_eq!(result, Err(CodeGenError::GenerationFailed("duplicate function: f".to_string())));
    let module = generator.get_module().expect("the generator keeps its module");
    assert!(module.functions.is_empty());
    let again = generator.generate_from_mir(&[returning("f", 1)]).expect("the generator still works");
    assert_eq!(payload_of(&again).get().functions.len(), 1);
}

#[test]
fn internal_error_stops_generation_and_nothing_is_kept() {
    let broken = MirFunction {
        name: "broken".to_string(),
        params: Vec::new(),
        return_type: None,
        basic_blocks: vec![block(vec![Instruction::Ret { value: Some(local(3)) }])],
    };
    let mut generator = LlvmCodeGen::new();
    assert_eq!(generator.translate_function(&returning("kept", 1)), Ok(()));
    let result = generator.generate_from_mir(&[returning("f", 1), broken]);
    assert_eq!(result, Err(CodeGenError::Internal(InternalError::UndefinedLocal { id: 3 })));
    let module = generator.get_module().expect("the generator keeps its module");
    assert_eq!(module.functions.len(), 1);
    assert_eq!(module.functions[0].name, "kept");
}

#[test]
fn duplicate_is_seen_before_the_function_is_translated() {
    let broken_twin = MirFunction {
        name: "f".to_string(),
        params: Vec::new(),
        return_type: None,
        basic_blocks: vec![block(vec![Instruction::Ret { value: Some(local(3)) }])],
    };
    let mut generator = LlvmCodeGen::new();
    assert_eq!(generator.translate_function(&returning("f", 1)), Ok(()));
    assert_eq!(
        generator.translate_function(&broken_twin),
        Err(CodeGenError::GenerationFailed("duplicate function: f".to_string()))
    );
    assert_eq!(generator.get_module().unwrap().functions.len(), 1);
}

#[test]
fn add_function_registers_in_order() {
    let mut module =
        TargetModule { name: "m".to_string(), target_triple: "t".to_string(), functions: Vec::new() };
    assert!(!module.declares(&"one".to_string()));
    assert_eq!(add_function(&mut module, &returning("one", 1)), Ok(()));
    assert_eq!(add_function(&mut module, &returning("two", 2)), Ok(()));
    assert!(module.declares(&"one".to_string()));
    assert!(module.declares(&"two".to_string()));
    assert!(!module.declares(&"three".to_string()));
    assert_eq!(module.functions[0].name, "one");
    assert_eq!(module.functions[1].name, "two");
    assert_eq!(module.name, "m");
}

#[test]
fn generate_routes_by_shape() {
    let mut generator = LlvmCodeGen::new();
    let refused = generator.generate(BackendInput::Hir(vec![Hir { name: "unit".to_string() }]));
    assert_eq!(
        refused,
        Err(CodeGenError::UnsupportedFeature("This backend does not support HIR input".to_string()))
    );
    assert!(generator.get_module().is_some());
    assert_eq!(
        generator.generate_from_hir(&[]),
        Err(CodeGenError::UnsupportedFeature("This backend does not support HIR input".to_string()))
    );
    let module = generator
        .generate(BackendInput::Mir(vec![add_function_mir()]))
        .expect("well-formed input");
    assert_eq!(payload_of(&module).get().functions.len(), 1);
    assert!(generator.get_module().is_none());
}

#[test]
fn module_constructors_and_clone() {
    let empty = Module::new("m".to_string());
    assert_eq!(empty.name, "m");
    assert!(empty.data.is_none());
    let with_payload = Module::with_data("n".to_string(), ModuleData::Null);
    assert_eq!(with_payload.data, Some(ModuleData::Null));
    let mut generator = LlvmCodeGen::new();
    let module = generator.generate_from_mir(&[add_function_mir()]).unwrap();
    let copy = module.clone();
    assert_eq!(copy.name, "emerald_module");
    assert!(copy.data.is_none());
    assert!(module.data.is_some());
}

#[test]
fn wrapper_starts_without_passes() {
    let module =
        TargetModule { name: "m".to_string(), target_triple: "t".to_string(), functions: Vec::new() };
    let wrapper = LlvmModuleWrapper::new(module);
    assert_eq!(wrapper.get().name, "m");
    assert_eq!(wrapper.opt_level, OptimizationLevel::Default);
    assert!(wrapper.passes.is_empty());
    assert_eq!(ModuleData::Llvm(wrapper).backend_type(), BackendType::Llvm);
    assert_eq!(ModuleData::Null.backend_type(), BackendType::Null);
}

#[test]
fn optimization_levels_from_text() {
    assert_eq!(OptimizationLevel::from_str("0"), Some(OptimizationLevel::Off));
    assert_eq!(OptimizationLevel::from_str("1"), Some(OptimizationLevel::Basic));
    assert_eq!(OptimizationLevel::from_str("2"), Some(OptimizationLevel::Default));
    assert_eq!(OptimizationLevel::from_str("3"), Some(OptimizationLevel::Aggressive));
    assert_eq!(OptimizationLevel::from_str("s"), Some(OptimizationLevel::Size));
    assert_eq!(OptimizationLevel::from_str("size"), Some(OptimizationLevel::Size));
    assert_eq!(OptimizationLevel::from_str("z"), Some(OptimizationLevel::SizePerformance));
    assert_eq!(OptimizationLevel::from_str("zsize"), Some(OptimizationLevel::SizePerformance));
    assert_eq!(OptimizationLevel::from_str(""), None);
    assert_eq!(OptimizationLevel::from_str("4"), None);
    assert_eq!(OptimizationLevel::from_str("S"), None);
    assert_eq!(OptimizationLevel::from_str(" 2"), None);
    assert_eq!(OptimizationLevel::from_str("sizez"), None);
}

#[test]
fn pipelines_of_the_levels() {
    assert_eq!(OptimizationLevel::Off.pipeline(), "default<O0>");
    assert_eq!(OptimizationLevel::Basic.pipeline(), "default<O1>");
    assert_eq!(OptimizationLevel::Default.pipeline(), "default<O2>");
    assert_eq!(OptimizationLevel::Aggressive.pipeline(), "default<O3>");
    assert_eq!(OptimizationLevel::Size.pipeline(), "default<Os>");
    assert_eq!(OptimizationLevel::SizePerformance.pipeline(), "default<Oz>");
}

#[test]
fn same_text_compares_characters() {
    assert!(same_text("abc", "abc"));
    assert!(same_text("", ""));
    assert!(!same_text("abc", "abd"));
    assert!(!same_text("abc", "ab"));
}

#[test]
fn error_messages() {
    assert_eq!(
        CodeGenError::GenerationFailed("x".to_string()).message(),
        "Code generation failed: x"
    );
    assert_eq!(CodeGenError::InvalidTarget("y".to_string()).message(), "Invalid target triple: y");
    assert_eq!(
        CodeGenError::UnsupportedFeature("z".to_string()).message(),
        "Unsupported feature: z"
    );
    assert_eq!(
        CodeGenError::Internal(InternalError::UndefinedLocal { id: 42 }).message(),
        "Internal error: undefined local 42"
    );
    assert_eq!(InternalError::MissingBlock { index: 0 }.message(), "missing block 0");
    assert_eq!(InternalError::MissingBlock { index: 1005 }.message(), "missing block 1005");
    assert_eq!(InternalError::UnsubstitutedGeneric.message(), "unsubstituted generic type");
    assert_eq!(InternalError::UnresolvedFunction.message(), "unresolved function reference");
    assert_eq!(
        OptimizationError::OptimizationFailed("a".to_string()).message(),
        "Optimization failed: a"
    );
    assert_eq!(EmitError::EmissionFailed("b".to_string()).message(), "Emission failed: b");
}

#[test]
fn optimizer_schedules_a_run_and_changes_no_function() {
    let mut generator = LlvmCodeGen::new();
    let mut module = generator.generate_from_mir(&[add_function_mir()]).unwrap();
    let before = lower_function(&add_function_mir()).unwrap();
    let mut optimizer = LlvmOptimizer::new();
    assert_eq!(optimizer.opt_level, OptimizationLevel::Default);
    assert_eq!(optimizer.optimize(&mut module), Ok(()));
    assert_eq!(payload_of(&module).passes, vec![OptimizationLevel::Default]);
    let mut for_size = LlvmOptimizer::with_level(OptimizationLevel::Size);
    assert_eq!(for_size.optimize(&mut module), Ok(()));
    assert_eq!(for_size.optimize(&mut module), Ok(()));
    assert_eq!(
        payload_of(&module).passes,
        vec![OptimizationLevel::Default, OptimizationLevel::Size, OptimizationLevel::Size]
    );
    assert_eq!(payload_of(&module).get().functions, vec![before]);
    assert_eq!(module.name, "emerald_module");
    assert_eq!(LlvmOptimizer::default(), LlvmOptimizer::new());
}

#[test]
fn optimizer_refuses_a_module_that_is_not_its_own() {
    let mut optimizer = LlvmOptimizer::new();
    let mut without_payload = Module::new("m".to_string());
    assert_eq!(
        optimizer.optimize(&mut without_payload),
        Err(OptimizationError::OptimizationFailed(
            "Module does not contain LLVM module".to_string()
        ))
    );
    assert_eq!(without_payload, Module::new("m".to_string()));
    let mut foreign = Module::with_data("m".to_string(), ModuleData::Null);
    assert_eq!(
        optimizer.optimize(&mut foreign),
        Err(OptimizationError::OptimizationFailed(
            "Module does not contain LLVM module".to_string()
        ))
    );
    assert_eq!(foreign.data, Some(ModuleData::Null));
}

#[test]
fn factory_makes_objects_of_one_family() {
    let factory = LlvmBackendFactory;
    assert_eq!(factory.backend_type(), BackendType::Llvm);
    let mut generator = factory.create_codegen().expect("the factory does not fail");
    let mut optimizer = factory.create_optimizer().expect("the factory does not fail");
    let emitter = factory.create_emitter().expect("the factory does not fail");
    let mut module = generator.generate_from_mir(&[add_function_mir()]).unwrap();
    assert_eq!(optimizer.optimize(&mut module), Ok(()));
    assert!(emitter.emit_llvm_ir(&module).is_ok());
}

#[test]
fn terminators_are_ret_jump_and_br() {
    assert!(Instruction::Ret { value: None }.is_terminator());
    assert!(Instruction::Jump { target: 0 }.is_terminator());
    assert!(Instruction::Br { condition: local(0), then_bb: 0, else_bb: 1 }.is_terminator());
    assert!(!Instruction::Copy { dest: Local { id: 1 }, source: local(0), type_: int_type() }
        .is_terminator());
    assert!(!Instruction::Call { dest: None, func: local(0), args: vec![], return_type: None }
        .is_terminator());
    assert!(TargetInst::Ret { value: None }.is_terminator());
    assert!(TargetInst::Br { target: 0 }.is_terminator());
    assert!(TargetInst::CondBr {
        condition: TargetValue::Param { index: 0 },
        then_block: 0,
        else_block: 1
    }
    .is_terminator());
    assert!(!TargetInst::Alloca { ty: TargetType::Double }.is_terminator());
}

#[test]
fn well_terminated_blocks() {
    let good = block(vec![
        Instruction::Copy { dest: Local { id: 1 }, source: int_const(1), type_: int_type() },
        Instruction::Ret { value: None },
    ]);
    assert!(good.is_well_terminated());
    assert!(!block(Vec::new()).is_well_terminated());
    let open_ended = block(vec![Instruction::Copy {
        dest: Local { id: 1 },
        source: int_const(1),
        type_: int_type(),
    }]);
    assert!(!open_ended.is_well_terminated());
    let two = block(vec![Instruction::Jump { target: 0 }, Instruction::Ret { value: None }]);
    assert!(!two.is_well_terminated());
    assert!(block(vec![Instruction::Jump { target: 0 }]).is_well_terminated());
    let mut function = add_function_mir();
    assert!(function.is_well_terminated());
    function.basic_blocks.push(open_ended);
    assert!(!function.is_well_terminated());
    let declaration = MirFunction {
        name: "d".to_string(),
        params: Vec::new(),
        return_type: None,
        basic_blocks: Vec::new(),
    };
    assert!(declaration.is_well_terminated());
}

#[test]
fn terminated_source_gives_terminated_target() {
    let mir = MirFunction {
        name: "f".to_string(),
        params: vec![param(0, Type::Primitive(PrimitiveType::Bool))],
        return_type: Some(int_type()),
        basic_blocks: vec![
            block(vec![
                Instruction::Copy { dest: Local { id: 1 }, source: int_const(1), type_: int_type() },
                Instruction::Call {
                    dest: Some(Local { id: 2 }),
                    func: local(0),
                    args: vec![],
                    return_type: None,
                },
                Instruction::Br { condition: local(0), then_bb: 1, else_bb: 1 },
            ]),
            block(vec![
                Instruction::Not { dest: Local { id: 3 }, operand: local(0) },
                Instruction::Ret { value: Some(local(1)) },
            ]),
        ],
    };
    assert!(mir.is_well_terminated());
    let function = lower_function(&mir).expect("well-formed input");
    assert_eq!(function.blocks.len(), mir.basic_blocks.len());
    for target_block in &function.blocks {
        let (last, before) = target_block.insts.split_last().expect("the block is not empty");
        assert!(last.is_terminator());
        assert!(before.iter().all(|inst| !inst.is_terminator()));
    }
    assert_eq!(function.blocks[0].insts.len(), 1);
    assert_eq!(function.blocks[1].insts.len(), 2);
}

#[test]
fn names_of_results() {
    let a = TargetValue::Param { index: 0 };
    let named = vec![
        (BinaryOp::Add, "add"),
        (BinaryOp::Sub, "sub"),
        (BinaryOp::Mul, "mul"),
        (BinaryOp::SDiv, "div"),
        (BinaryOp::SRem, "mod"),
        (BinaryOp::And, "and"),
        (BinaryOp::Or, "or"),
    ];
    for (op, name) in named {
        assert_eq!(TargetInst::Binary { op, left: a.clone(), right: a.clone() }.name(), name);
    }
    assert_eq!(TargetInst::Not { operand: a.clone() }.name(), "not");
    assert_eq!(TargetInst::Load { ty: TargetType::Double, pointer: a.clone() }.name(), "load");
    assert_eq!(TargetInst::Alloca { ty: TargetType::Double }.name(), "alloca");
    assert_eq!(
        TargetInst::Gep { ty: TargetType::Double, base: a.clone(), index: a.clone() }.name(),
        "gep"
    );
    assert_eq!(TargetInst::Phi { ty: TargetType::Double, incoming: vec![] }.name(), "phi");
    assert_eq!(TargetInst::Store { value: a.clone(), pointer: a.clone() }.name(), "");
    assert_eq!(TargetInst::Ret { value: None }.name(), "");
    assert_eq!(TargetInst::Br { target: 0 }.name(), "");
}
