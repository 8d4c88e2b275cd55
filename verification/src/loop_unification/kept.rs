//! After the pass every expression that is no loop itself occurs as often as before.

pub mod unary_kept;
pub mod binary_kept;
pub mod listed_kept;
pub mod branching_kept;
pub mod blocked_kept;
pub mod for_loop_kept;
pub mod repeat_loop_kept;
pub mod expr_kept;
pub mod opt_expr_kept;
pub mod opt_block_kept;
pub mod exprs_kept;
pub mod component_kept;
pub mod components_kept;
pub mod stmt_kept;
pub mod stmts_kept;
pub mod block_kept;
