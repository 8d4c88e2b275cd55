//! After the pass a piece of an interpolated string holds no `for` and no
//! `repeat` loop.

use vstd::prelude::*;
use crate::global::TermView;
use crate::hir::StringComponentView;
use crate::loop_unification::model::{lower_component, lowerable_component};
use crate::loop_unification::primitive::sugar_free_component;

use crate::loop_unification::removal::lowered_expr_is_free::lemma_lowered_expr_is_free;

verus! {

/// After the pass a piece of an interpolated string holds no `for` and no
/// `repeat` loop.
pub proof fn lemma_lowered_component_is_free(
    component: StringComponentView,
    next: nat,
    core: Seq<TermView>,
)
    requires
        lowerable_component(component, core),
    ensures
        sugar_free_component(lower_component(component, next, core)),
    decreases component,
{
    match component {
        StringComponentView::Expr(e) => lemma_lowered_expr_is_free(e, next, core),
        StringComponentView::Lit(_) => {},
    }
}

} // verus!
