//! The parser's entry points for items.

pub mod scan;
pub mod ast;
pub mod prim;
pub mod item;
