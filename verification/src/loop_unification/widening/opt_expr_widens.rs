//! The added locals of an expression that may be absent that lie in a range lie in
//! every wider one.

use vstd::prelude::*;
use crate::hir::ExprView;
use crate::loop_unification::added::added_within_opt_expr;
use crate::loop_unification::widening::expr_widens::lemma_expr_widens;

verus! {

/// The added locals of an expression that may be absent that lie in a range lie in
/// every wider one.
pub proof fn lemma_opt_expr_widens(e: Option<Box<ExprView>>, lo: nat, hi: nat, wide_lo: nat, wide_hi: nat)
    requires
        added_within_opt_expr(e, lo, hi),
        (wide_lo <= lo && hi <= wide_hi) || lo >= hi,
    ensures
        added_within_opt_expr(e, wide_lo, wide_hi),
    decreases e,
{
    match e {
        Some(e) => lemma_expr_widens(*e, lo, hi, wide_lo, wide_hi),
        None => {},
    }
}

} // verus!
