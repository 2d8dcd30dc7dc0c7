//! Scheduling core of a multi-dialect Lua bytecode decompiler: the fixed stage
//! order, the option normalisation done at the entry point, the per-call state
//! container and the pipeline that drives the layers in order.

pub mod ast;
pub mod debug;
pub mod decompile;
pub mod generate;
pub mod hir;
pub mod naming;
pub mod parser;
pub mod readability;
pub mod text;
