//! The pass leaves a tree without `for` and `repeat` loops as it is.

pub mod total_zero;
pub mod free_expr_is_fixed;
pub mod free_opt_expr_is_fixed;
pub mod free_exprs_are_fixed;
pub mod free_component_is_fixed;
pub mod free_components_are_fixed;
pub mod free_stmt_is_fixed;
pub mod free_stmts_are_fixed;
pub mod free_block_is_fixed;
