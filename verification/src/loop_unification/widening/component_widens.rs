//! The added locals of a piece of an interpolated string that lie in a range lie in
//! every wider one.

use vstd::prelude::*;
use crate::hir::StringComponentView;
use crate::loop_unification::added::added_within_component;
use crate::loop_unification::widening::expr_widens::lemma_expr_widens;

verus! {

/// The added locals of a piece of an interpolated string that lie in a range lie in
/// every wider one.
pub proof fn lemma_component_widens(
    component: StringComponentView,
    lo: nat, hi: nat, wide_lo: nat, wide_hi: nat
)
    requires
        added_within_component(component, lo, hi),
        (wide_lo <= lo && hi <= wide_hi) || lo >= hi,
    ensures
        added_within_component(component, wide_lo, wide_hi),
    decreases component,
{
    match component {
        StringComponentView::Expr(e) => lemma_expr_widens(e, lo, hi, wide_lo, wide_hi),
        StringComponentView::Lit(_) => {},
    }
}

} // verus!
