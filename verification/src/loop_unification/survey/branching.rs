//! Surveys a conditional or a range.

use vstd::prelude::*;
use crate::global::Table;
use crate::hir::{Expr, ExprKind};
use crate::loop_unification::model::{fresh_expr, lowerable_expr};
use crate::loop_unification::survey::{capped, Survey};
use crate::loop_unification::survey::expr::survey_expr;
use crate::loop_unification::survey::opt_expr::survey_opt_expr;

verus! {

/// Surveys a conditional or a range.
pub fn survey_branching(core: &Table, e: &Expr) -> (r: Survey)
    requires
        e@.kind is If || e@.kind is Range,
    ensures
        r.lowerable == lowerable_expr(e@, core@),
        r.fresh == capped(fresh_expr(e@)),
    decreases e, 0nat,
{
    reveal_with_fuel(lowerable_expr, 1);
    reveal_with_fuel(fresh_expr, 1);
    match &e.kind {
        ExprKind::If(cond, body, otherwise) => {
            survey_expr(core, cond).and(survey_expr(core, body)).and(
                survey_opt_expr(core, otherwise),
            )
        },
        ExprKind::Range(start, step, end) => {
            survey_opt_expr(core, start).and(survey_opt_expr(core, step)).and(
                survey_opt_expr(core, end),
            )
        },
        _ => Survey::nothing(),
    }
}

} // verus!
