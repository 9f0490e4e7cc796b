//! A single-pass translator from a parsed Rust syntax tree to a Luau
//! syntax tree, preserving control flow and operator semantics while
//! adapting types, references and implicit-return conventions.

pub mod context;
pub mod ir;
pub mod luau;
pub mod rust_ast;
pub mod laws;
pub mod translation;
pub mod transformer;
