//! Surveys a block or a `while` loop.

use vstd::prelude::*;
use crate::global::Table;
use crate::hir::{Block, Expr, ExprKind};
use crate::loop_unification::model::{fresh_expr, lowerable_expr};
use crate::loop_unification::survey::{capped, Survey};
use crate::loop_unification::survey::expr::survey_expr;
use crate::loop_unification::survey::block::survey_block;

verus! {

/// Surveys a block or a `while` loop.
pub fn survey_blocked(core: &Table, e: &Expr) -> (r: Survey)
    requires
        e@.kind is Block || e@.kind is While,
    ensures
        r.lowerable == lowerable_expr(e@, core@),
        r.fresh == capped(fresh_expr(e@)),
    decreases e, 0nat,
{
    reveal_with_fuel(lowerable_expr, 1);
    reveal_with_fuel(fresh_expr, 1);
    match &e.kind {
        ExprKind::Block(block) => survey_block(core, block),
        ExprKind::While(cond, body) => survey_expr(core, cond).and(survey_block(core, body)),
        _ => Survey::nothing(),
    }
}

} // verus!
