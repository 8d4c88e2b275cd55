//! Surveys a `repeat` loop: its parts can be lowered, and its condition is
//! Boolean.

use vstd::prelude::*;
use crate::global::Table;
use crate::hir::{Expr, ExprKind};
use crate::loop_unification::model::{fresh_expr, lowerable_expr};
use crate::loop_unification::survey::{capped, Survey};
use crate::loop_unification::survey::until::survey_until;
use crate::loop_unification::survey::expr::survey_expr;
use crate::loop_unification::survey::opt_block::survey_opt_block;
use crate::loop_unification::survey::block::survey_block;

verus! {

/// Surveys a `repeat` loop: its parts can be lowered, and its condition is
/// Boolean.
pub fn survey_repeat(core: &Table, e: &Expr) -> (r: Survey)
    requires
        e@.kind is Repeat,
    ensures
        r.lowerable == lowerable_expr(e@, core@),
        r.fresh == capped(fresh_expr(e@)),
    decreases e, 0nat,
{
    reveal_with_fuel(lowerable_expr, 1);
    reveal_with_fuel(fresh_expr, 1);
    match &e.kind {
        ExprKind::Repeat(body, until, fixup) => {
            survey_block(core, body).and(survey_expr(core, until)).and(
                survey_opt_block(core, fixup),
            ).and(survey_until(until))
        },
        _ => Survey::nothing(),
    }
}

} // verus!
