//! The walk over parts that may be absent.

use vstd::prelude::*;
use crate::assigner::{Assigner, PLACEHOLDER};
use crate::global::Table;
use crate::hir::{opt_block_view, opt_expr_view, Block, Expr};
use crate::loop_unification::model;
use crate::loop_unification::model::{
    fresh_opt_block, fresh_opt_expr, lowerable_opt_block, lowerable_opt_expr,
};
use crate::loop_unification::walk::block::lower_block;
use crate::loop_unification::walk::expr::lower_expr;

verus! {

/// Lowers every loop in an expression that may be absent.
pub fn lower_opt_expr(core: &Table, assigner: &mut Assigner, e: Option<Box<Expr>>) -> (r: Option<
    Box<Expr>,
>)
    requires
        lowerable_opt_expr(opt_expr_view(e), core@),
        old(assigner)@ + fresh_opt_expr(opt_expr_view(e)) <= PLACEHOLDER,
    ensures
        opt_expr_view(r) == model::lower_opt_expr(opt_expr_view(e), old(assigner)@, core@),
        final(assigner)@ == old(assigner)@ + fresh_opt_expr(opt_expr_view(e)),
    decreases e, 0nat,
{
    match e {
        Some(e) => Some(Box::new(lower_expr(core, assigner, *e))),
        None => None,
    }
}

/// Lowers every loop in a block that may be absent.
pub fn lower_opt_block(core: &Table, assigner: &mut Assigner, block: Option<Block>) -> (r: Option<
    Block,
>)
    requires
        lowerable_opt_block(opt_block_view(block), core@),
        old(assigner)@ + fresh_opt_block(opt_block_view(block)) <= PLACEHOLDER,
    ensures
        opt_block_view(r) == model::lower_opt_block(opt_block_view(block), old(assigner)@, core@),
        final(assigner)@ == old(assigner)@ + fresh_opt_block(opt_block_view(block)),
    decreases block, 0nat,
{
    match block {
        Some(block) => Some(lower_block(core, assigner, block)),
        None => None,
    }
}

} // verus!
