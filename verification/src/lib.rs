//! Loop lowering for a typed quantum-program tree, together with the small
//! pieces of the evaluator, the item parser and the rename service that sit
//! around it. Every function here carries a contract that Verus proves.

pub mod span;
pub mod debug;
pub mod ty;
pub mod assigner;
pub mod hir;
pub mod global;
pub mod common;
pub mod loop_unification;
pub mod parse;
pub mod rename;
