//! Every local that the pass adds carries an identity that the pass drew.

pub mod unary_keeps_range;
pub mod binary_keeps_range;
pub mod listed_keeps_range;
pub mod branching_keeps_range;
pub mod blocked_keeps_range;
pub mod for_loop_keeps_range;
pub mod repeat_loop_keeps_range;
pub mod expr_keeps_range;
pub mod opt_expr_keeps_range;
pub mod opt_block_keeps_range;
pub mod exprs_keeps_range;
pub mod component_keeps_range;
pub mod components_keeps_range;
pub mod stmt_keeps_range;
pub mod stmts_keeps_range;
pub mod block_keeps_range;
