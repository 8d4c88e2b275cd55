//! The locals that the pass adds to a list of expressions have
//! identities that the pass drew.

use vstd::prelude::*;
use crate::global::TermView;
use crate::hir::ExprView;
use crate::loop_unification::model::{
    expr_counts, fresh_exprs, lemma_total_before, lower_exprs, lowerable_exprs, total_before,
};
use crate::assigner::PLACEHOLDER;
use crate::loop_unification::added::{added_within_expr, added_within_exprs};
use crate::loop_unification::hygiene::expr_keeps_range::lemma_expr_keeps_range;

verus! {

/// The locals that the pass adds to a list of expressions have
/// identities that the pass drew.
pub proof fn lemma_exprs_keeps_range(exprs: Seq<ExprView>, next: nat, core: Seq<TermView>, lo: nat, hi: nat)
    requires
        lowerable_exprs(exprs, core),
        added_within_exprs(exprs, lo, hi),
        lo <= next,
        next + fresh_exprs(exprs) <= hi,
        hi <= PLACEHOLDER,
    ensures
        added_within_exprs(lower_exprs(exprs, next, core), lo, hi),
    decreases exprs, 0nat,
{
    let lowered = lower_exprs(exprs, next, core);
    let counts = expr_counts(exprs);
    assert forall|i: int| 0 <= i < lowered.len() implies added_within_expr(
        #[trigger] lowered[i],
        lo,
        hi,
    ) by {
        lemma_total_before(counts, i);
        lemma_total_before(counts, i + 1);
        lemma_expr_keeps_range(exprs[i], next + total_before(counts, i), core, lo, hi);
    }
}

} // verus!
