//! The pass leaves a list of expressions without `for` and `repeat` loops
//! as it is.

use vstd::prelude::*;
use crate::global::TermView;
use crate::hir::ExprView;
use crate::loop_unification::model::{
    expr_counts, lower_exprs, lowerable_expr, lowerable_exprs, total, total_before,
};
use crate::loop_unification::primitive::sugar_free_exprs;

use crate::loop_unification::fixed::total_zero::lemma_total_zero;
use crate::loop_unification::fixed::free_expr_is_fixed::lemma_free_expr_is_fixed;

verus! {

/// The pass leaves a list of expressions without `for` and `repeat` loops
/// as it is.
pub proof fn lemma_free_exprs_are_fixed(exprs: Seq<ExprView>, next: nat, core: Seq<TermView>)
    requires
        sugar_free_exprs(exprs),
    ensures
        lowerable_exprs(exprs, core),
        total(expr_counts(exprs)) == 0,
        lower_exprs(exprs, next, core) == exprs,
    decreases exprs,
{
    let lowered = lower_exprs(exprs, next, core);
    let counts = expr_counts(exprs);
    assert forall|i: int| 0 <= i < exprs.len() implies lowerable_expr(#[trigger] exprs[i], core)
        && counts[i] == 0 && lowered[i] == exprs[i] by {
        lemma_free_expr_is_fixed(exprs[i], next + total_before(counts, i), core);
    }
    lemma_total_zero(counts);
    assert(lowered =~= exprs);
}

} // verus!
