//! After the pass a tree holds no `for` and no `repeat` loop.

pub mod lowered_expr_is_free;
pub mod lowered_opt_expr_is_free;
pub mod lowered_opt_block_is_free;
pub mod lowered_exprs_are_free;
pub mod lowered_component_is_free;
pub mod lowered_components_are_free;
pub mod lowered_stmt_is_free;
pub mod lowered_stmts_are_free;
pub mod lowered_block_is_free;
