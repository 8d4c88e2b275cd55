//! Surveys a piece of an interpolated string.

use vstd::prelude::*;
use crate::global::Table;
use crate::hir::{Expr, StringComponent};
use crate::loop_unification::model::{fresh_component, lowerable_component};
use crate::loop_unification::survey::{capped, Survey};
use crate::loop_unification::survey::expr::survey_expr;

verus! {

/// Surveys a piece of an interpolated string.
pub fn survey_component(core: &Table, component: &StringComponent) -> (r: Survey)
    ensures
        r.lowerable == lowerable_component(component@, core@),
        r.fresh == capped(fresh_component(component@)),
    decreases component, 0nat,
{
    match component {
        StringComponent::Expr(e) => survey_expr(core, e),
        StringComponent::Lit(_) => Survey::nothing(),
    }
}

} // verus!
