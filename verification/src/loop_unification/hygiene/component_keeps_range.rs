//! The locals that the pass adds to a piece of an interpolated string have
//! identities that the pass drew.

use vstd::prelude::*;
use crate::global::TermView;
use crate::hir::StringComponentView;
use crate::loop_unification::model::{fresh_component, lower_component, lowerable_component};
use crate::assigner::PLACEHOLDER;
use crate::loop_unification::added::added_within_component;
use crate::loop_unification::hygiene::expr_keeps_range::lemma_expr_keeps_range;

verus! {

/// The locals that the pass adds to a piece of an interpolated string have
/// identities that the pass drew.
pub proof fn lemma_component_keeps_range(
    component: StringComponentView,
    next: nat,
    core: Seq<TermView>,
    lo: nat,
    hi: nat,
)
    requires
        lowerable_component(component, core),
        added_within_component(component, lo, hi),
        lo <= next,
        next + fresh_component(component) <= hi,
        hi <= PLACEHOLDER,
    ensures
        added_within_component(lower_component(component, next, core), lo, hi),
    decreases component, 0nat,
{
    match component {
        StringComponentView::Expr(e) => lemma_expr_keeps_range(e, next, core, lo, hi),
        StringComponentView::Lit(_) => {},
    }
}

} // verus!
