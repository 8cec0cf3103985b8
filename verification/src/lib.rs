//! Backend of a compiler: lowers a mid-level, block-structured intermediate
//! representation to a target-level module, behind a backend contract shared
//! by code generator, optimizer and emitter.

pub mod builder;
pub mod codegen;
pub mod emitter;
pub mod factory;
pub mod instructions;
pub mod mir;
pub mod optimizer;
pub mod ports;
pub mod target;
pub mod types;
