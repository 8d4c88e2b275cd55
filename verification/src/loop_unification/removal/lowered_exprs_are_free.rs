//! After the pass a list of expressions holds no `for` and no `repeat` loop.

use vstd::prelude::*;
use crate::global::TermView;
use crate::hir::ExprView;
use crate::loop_unification::model::{expr_counts, lower_exprs, lowerable_exprs, total_before};
use crate::loop_unification::primitive::{sugar_free_expr, sugar_free_exprs};

use crate::loop_unification::removal::lowered_expr_is_free::lemma_lowered_expr_is_free;

verus! {

/// After the pass a list of expressions holds no `for` and no `repeat` loop.
pub proof fn lemma_lowered_exprs_are_free(exprs: Seq<ExprView>, next: nat, core: Seq<TermView>)
    requires
        lowerable_exprs(exprs, core),
    ensures
        sugar_free_exprs(lower_exprs(exprs, next, core)),
    decreases exprs,
{
    let lowered = lower_exprs(exprs, next, core);
    assert forall|i: int| 0 <= i < lowered.len() implies sugar_free_expr(#[trigger] lowered[i]) by {
        lemma_lowered_expr_is_free(exprs[i], next + total_before(expr_counts(exprs), i), core);
    }
}

} // verus!
