//! The test of a loop over a range holds no loop.

use vstd::prelude::*;
use crate::common::IdentTemplateView;
use crate::loop_unification::expansion::range_guard;
use crate::span::Span;
use crate::loop_unification::added::added_within_expr;

use crate::loop_unification::fresh_locals::local_ref_added::lemma_local_ref_added;

verus! {

/// The test of a loop over a range holds no loop.
pub proof fn lemma_range_guard_added(
    index: IdentTemplateView,
    step: IdentTemplateView,
    end: IdentTemplateView,
    span: Span,
    lo: nat,
    hi: nat,
)
    ensures
        added_within_expr(range_guard(index, step, end, span), lo, hi),
{
    let guard = range_guard(index, step, end, span);
    let rising = *guard.kind->BinOp_1;
    let falling = *guard.kind->BinOp_2;
    let rising_step = *rising.kind->BinOp_1;
    let rising_bound = *rising.kind->BinOp_2;
    let falling_step = *falling.kind->BinOp_1;
    let falling_bound = *falling.kind->BinOp_2;
    lemma_local_ref_added(index, lo, hi);
    lemma_local_ref_added(step, lo, hi);
    lemma_local_ref_added(end, lo, hi);
    assert(added_within_expr(*rising_step.kind->BinOp_2, lo, hi));
    assert(added_within_expr(rising_step, lo, hi));
    assert(added_within_expr(rising_bound, lo, hi));
    assert(added_within_expr(*falling_step.kind->BinOp_2, lo, hi));
    assert(added_within_expr(falling_step, lo, hi));
    assert(added_within_expr(falling_bound, lo, hi));
    assert(added_within_expr(rising, lo, hi));
    assert(added_within_expr(falling, lo, hi));
}

} // verus!
