//! The added locals of a list of expressions that lie in a range lie in
//! every wider one.

use vstd::prelude::*;
use crate::hir::ExprView;
use crate::loop_unification::added::{added_within_expr, added_within_exprs};
use crate::loop_unification::widening::expr_widens::lemma_expr_widens;

verus! {

/// The added locals of a list of expressions that lie in a range lie in
/// every wider one.
pub proof fn lemma_exprs_widens(exprs: Seq<ExprView>, lo: nat, hi: nat, wide_lo: nat, wide_hi: nat)
    requires
        added_within_exprs(exprs, lo, hi),
        (wide_lo <= lo && hi <= wide_hi) || lo >= hi,
    ensures
        added_within_exprs(exprs, wide_lo, wide_hi),
    decreases exprs,
{
    assert forall|i: int| 0 <= i < exprs.len() implies added_within_expr(
        #[trigger] exprs[i],
        wide_lo,
        wide_hi,
    ) by {
        lemma_expr_widens(exprs[i], lo, hi, wide_lo, wide_hi);
    }
}

} // verus!
