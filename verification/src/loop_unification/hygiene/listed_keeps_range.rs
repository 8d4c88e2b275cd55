//! The locals that the pass adds to an expression that holds a list have identities that
//! the pass drew.

use vstd::prelude::*;
use crate::global::TermView;
use crate::hir::{ExprKindView, ExprView};
use crate::loop_unification::model::{fresh_expr, lower_expr, lowerable_expr};
use crate::assigner::PLACEHOLDER;
use crate::loop_unification::added::added_within_expr;
use crate::loop_unification::hygiene::exprs_keeps_range::lemma_exprs_keeps_range;
use crate::loop_unification::hygiene::components_keeps_range::lemma_components_keeps_range;

verus! {

/// The locals that the pass adds to an expression that holds a list have identities that
/// the pass drew.
pub proof fn lemma_listed_keeps_range(
    e: ExprView,
    next: nat,
    core: Seq<TermView>,
    lo: nat,
    hi: nat,
)
    requires
        lowerable_expr(e, core),
        added_within_expr(e, lo, hi),
        lo <= next,
        next + fresh_expr(e) <= hi,
        hi <= PLACEHOLDER,
        e.kind is Array || e.kind is Tuple || e.kind is String,
    ensures
        added_within_expr(lower_expr(e, next, core), lo, hi),
    decreases e, 0nat,
{
    reveal_with_fuel(lower_expr, 1);
    reveal_with_fuel(lowerable_expr, 1);
    reveal_with_fuel(fresh_expr, 1);
    match e.kind {
        ExprKindView::Array(items) => {
            lemma_exprs_keeps_range(items, next, core, lo, hi);
        },
        ExprKindView::Tuple(items) => {
            lemma_exprs_keeps_range(items, next, core, lo, hi);
        },
        ExprKindView::String(components) => {
            lemma_components_keeps_range(components, next, core, lo, hi);
        },
        _ => {},
    }
}

} // verus!
