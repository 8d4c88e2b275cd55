//! The walk over expressions that hold a block and stay.

use vstd::prelude::*;
use crate::assigner::{Assigner, PLACEHOLDER};
use crate::global::Table;
use crate::hir::{Block, Expr, ExprKind};
use crate::loop_unification::model;
use crate::loop_unification::model::{fresh_expr, lowerable_expr};
use crate::loop_unification::walk::expr::lower_expr;
use crate::loop_unification::walk::block::lower_block;

verus! {

/// Lowers every loop in the parts of `e`.
///
/// `e` is a block or a `while` loop.
pub fn lower_blocked(core: &Table, assigner: &mut Assigner, e: Expr) -> (r: Expr)
    requires
        e@.kind is Block || e@.kind is While,
        lowerable_expr(e@, core@),
        old(assigner)@ + fresh_expr(e@) <= PLACEHOLDER,
    ensures
        r@ == model::lower_expr(e@, old(assigner)@, core@),
        final(assigner)@ == old(assigner)@ + fresh_expr(e@),
    decreases e, 0nat,
{
    reveal_with_fuel(model::lower_expr, 1);
    reveal_with_fuel(lowerable_expr, 1);
    reveal_with_fuel(fresh_expr, 1);
    let Expr { id, span, ty, kind } = e;
    match kind {
        ExprKind::Block(block) => {
            let block = lower_block(core, assigner, block);
            Expr { id, span, ty, kind: ExprKind::Block(block) }
        },
        ExprKind::While(cond, body) => {
            let cond = lower_expr(core, assigner, *cond);
            let body = lower_block(core, assigner, body);
            Expr { id, span, ty, kind: ExprKind::While(Box::new(cond), body) }
        },
        kind => Expr { id, span, ty, kind },
    }
}

} // verus!
