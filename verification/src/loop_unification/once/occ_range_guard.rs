//! The test of a loop over a range holds no expression with an identity of
//! its own.

use vstd::prelude::*;
use crate::common::IdentTemplateView;
use crate::loop_unification::expansion::range_guard;
use crate::span::Span;
use crate::assigner::{NodeId, PLACEHOLDER};
use crate::loop_unification::occurrences::occ_expr;
use crate::loop_unification::once::occ_local_ref::lemma_occ_local_ref;

verus! {

/// The test of a loop over a range holds no expression with an identity of
/// its own.
pub proof fn lemma_occ_range_guard(
    id: NodeId,
    index: IdentTemplateView,
    step: IdentTemplateView,
    end: IdentTemplateView,
    span: Span,
)
    requires
        id != NodeId(PLACEHOLDER),
    ensures
        occ_expr(id, range_guard(index, step, end, span)) == 0,
{
    let guard = range_guard(index, step, end, span);
    let rising = *guard.kind->BinOp_1;
    let falling = *guard.kind->BinOp_2;
    let rising_step = *rising.kind->BinOp_1;
    let rising_bound = *rising.kind->BinOp_2;
    let falling_step = *falling.kind->BinOp_1;
    let falling_bound = *falling.kind->BinOp_2;
    lemma_occ_local_ref(id, index);
    lemma_occ_local_ref(id, step);
    lemma_occ_local_ref(id, end);
    assert(occ_expr(id, *rising_step.kind->BinOp_2) == 0);
    assert(occ_expr(id, rising_step) == 0);
    assert(occ_expr(id, rising_bound) == 0);
    assert(occ_expr(id, *falling_step.kind->BinOp_2) == 0);
    assert(occ_expr(id, falling_step) == 0);
    assert(occ_expr(id, falling_bound) == 0);
    assert(occ_expr(id, rising) == 0);
    assert(occ_expr(id, falling) == 0);
}

} // verus!
