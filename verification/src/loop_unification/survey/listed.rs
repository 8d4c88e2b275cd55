//! Surveys an expression that holds a list.

use vstd::prelude::*;
use crate::global::Table;
use crate::hir::{Expr, ExprKind};
use crate::loop_unification::model::{fresh_expr, lowerable_expr};
use crate::loop_unification::survey::{capped, Survey};
use crate::loop_unification::survey::exprs::survey_exprs;
use crate::loop_unification::survey::components::survey_components;

verus! {

/// Surveys an expression that holds a list.
pub fn survey_listed(core: &Table, e: &Expr) -> (r: Survey)
    requires
        e@.kind is Array || e@.kind is Tuple || e@.kind is String,
    ensures
        r.lowerable == lowerable_expr(e@, core@),
        r.fresh == capped(fresh_expr(e@)),
    decreases e, 0nat,
{
    reveal_with_fuel(lowerable_expr, 1);
    reveal_with_fuel(fresh_expr, 1);
    match &e.kind {
        ExprKind::Array(items) => survey_exprs(core, items),
        ExprKind::String(components) => survey_components(core, components),
        ExprKind::Tuple(items) => survey_exprs(core, items),
        _ => Survey::nothing(),
    }
}

} // verus!
