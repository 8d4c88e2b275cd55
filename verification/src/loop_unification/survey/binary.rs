//! Surveys an expression with two operands.

use vstd::prelude::*;
use crate::global::Table;
use crate::hir::{Expr, ExprKind};
use crate::loop_unification::model::{fresh_expr, lowerable_expr};
use crate::loop_unification::survey::{capped, Survey};
use crate::loop_unification::survey::expr::survey_expr;

verus! {

/// Surveys an expression with two operands.
pub fn survey_binary(core: &Table, e: &Expr) -> (r: Survey)
    requires
        e@.kind is Assign || e@.kind is AssignOp || e@.kind is BinOp || e@.kind is Call || e@.kind is Index,
    ensures
        r.lowerable == lowerable_expr(e@, core@),
        r.fresh == capped(fresh_expr(e@)),
    decreases e, 0nat,
{
    reveal_with_fuel(lowerable_expr, 1);
    reveal_with_fuel(fresh_expr, 1);
    match &e.kind {
        ExprKind::Assign(lhs, rhs) => {
            survey_expr(core, lhs).and(survey_expr(core, rhs))
        },
        ExprKind::AssignOp(_, lhs, rhs) => {
            survey_expr(core, lhs).and(survey_expr(core, rhs))
        },
        ExprKind::BinOp(_, lhs, rhs) => {
            survey_expr(core, lhs).and(survey_expr(core, rhs))
        },
        ExprKind::Call(callee, arg) => {
            survey_expr(core, callee).and(survey_expr(core, arg))
        },
        ExprKind::Index(array, index) => {
            survey_expr(core, array).and(survey_expr(core, index))
        },
        _ => Survey::nothing(),
    }
}

} // verus!
