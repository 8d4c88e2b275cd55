//! Surveys a `for` loop: its parts can be lowered, and it loops over an
//! array or a range.

use vstd::prelude::*;
use crate::global::Table;
use crate::hir::{Expr, ExprKind};
use crate::loop_unification::model::{fresh_expr, lowerable_expr};
use crate::loop_unification::survey::{capped, Survey};
use crate::loop_unification::survey::iterable::survey_iterable;
use crate::loop_unification::survey::expr::survey_expr;
use crate::loop_unification::survey::block::survey_block;

verus! {

/// Surveys a `for` loop: its parts can be lowered, and it loops over an
/// array or a range.
pub fn survey_for(core: &Table, e: &Expr) -> (r: Survey)
    requires
        e@.kind is For,
    ensures
        r.lowerable == lowerable_expr(e@, core@),
        r.fresh == capped(fresh_expr(e@)),
    decreases e, 0nat,
{
    reveal_with_fuel(lowerable_expr, 1);
    reveal_with_fuel(fresh_expr, 1);
    match &e.kind {
        ExprKind::For(_, iterable, body) => {
            survey_expr(core, iterable).and(survey_block(core, body)).and(
                survey_iterable(core, iterable),
            )
        },
        _ => Survey::nothing(),
    }
}

} // verus!
