//! Added locals that lie in a range lie in every wider one.

pub mod expr_widens;
pub mod opt_expr_widens;
pub mod opt_block_widens;
pub mod exprs_widens;
pub mod component_widens;
pub mod components_widens;
pub mod stmt_widens;
pub mod stmts_widens;
pub mod block_widens;
