//! The walk over the tree: children before the node that holds them, from
//! left to right.
//!
//! Each function stands in a module of its own. The solver works on a
//! module's functions in one session, and these are checked fastest alone.

pub mod expr;
pub mod opt;
pub mod exprs;
pub mod component;
pub mod components;
pub mod stmt;
pub mod stmts;
pub mod block;
pub mod unary;
pub mod binary;
pub mod listed;
pub mod branching;
pub mod blocked;
pub mod for_loop;
pub mod repeat_loop;
pub mod package;
