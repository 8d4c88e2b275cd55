//! The pass leaves a piece of an interpolated string without `for` and
//! `repeat` loops as it is.

use vstd::prelude::*;
use crate::global::TermView;
use crate::hir::StringComponentView;
use crate::loop_unification::model::{fresh_component, lower_component, lowerable_component};
use crate::loop_unification::primitive::sugar_free_component;

use crate::loop_unification::fixed::free_expr_is_fixed::lemma_free_expr_is_fixed;

verus! {

/// The pass leaves a piece of an interpolated string without `for` and
/// `repeat` loops as it is.
pub proof fn lemma_free_component_is_fixed(
    component: StringComponentView,
    next: nat,
    core: Seq<TermView>,
)
    requires
        sugar_free_component(component),
    ensures
        lowerable_component(component, core),
        fresh_component(component) == 0,
        lower_component(component, next, core) == component,
    decreases component,
{
    match component {
        StringComponentView::Expr(e) => lemma_free_expr_is_fixed(e, next, core),
        StringComponentView::Lit(_) => {},
    }
}

} // verus!
