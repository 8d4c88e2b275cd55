//! What stands in place of a `for` loop over a range holds no `for` and no
//! `repeat` loop if the loop's parts hold none.

use vstd::prelude::*;
use crate::hir::{BinOp, BlockView, ExprView, Mutability, PatView, PrimField};
use crate::loop_unification::expansion::{
    for_range_expansion, new_range_field, new_update, range_guard, wrapped,
};
use crate::span::Span;
use crate::common::template;

use crate::assigner::PLACEHOLDER;
use crate::loop_unification::added::{
    added_within_block, added_within_expr, added_within_stmt, binder_within,
};
use crate::loop_unification::expansion::{int_ty, nth_id, range_ty};
use crate::loop_unification::fresh_locals::local_ref_added::lemma_local_ref_added;
use crate::loop_unification::fresh_locals::init_added::lemma_init_added;
use crate::loop_unification::fresh_locals::while_added::lemma_while_added;
use crate::loop_unification::fresh_locals::block_expr_added::lemma_block_expr_added;
use crate::loop_unification::fresh_locals::wrapped_added::lemma_wrapped_added;
use crate::loop_unification::fresh_locals::update_added::lemma_update_added;
use crate::loop_unification::fresh_locals::range_guard_added::lemma_range_guard_added;
use crate::loop_unification::fresh_locals::range_field_added::lemma_range_field_added;

verus! {

/// What stands in place of a `for` loop over a range holds no `for` and no
/// `repeat` loop if the loop's parts hold none.
pub proof fn lemma_for_range_expansion_added(
    pat: PatView,
    iterable: ExprView,
    body: BlockView,
    span: Span,
    first: nat,
    lo: nat,
    hi: nat,
)
    requires
        added_within_expr(iterable, lo, hi),
        added_within_block(body, lo, hi),
        binder_within(pat, lo, hi),
        lo <= first,
        first + 4 <= hi,
        hi <= PLACEHOLDER,
    ensures
        added_within_expr(for_range_expansion(pat, iterable, body, span, first), lo, hi),
{
    reveal(for_range_expansion);
    let expansion = for_range_expansion(pat, iterable, body, span, first);
    let outer = expansion.kind->Block_0;
    let range = template("range_id"@, nth_id(first, 0), range_ty(), iterable.span);
    let index = template("index_id"@, nth_id(first, 1), int_ty(), iterable.span);
    let step = template("step_id"@, nth_id(first, 2), int_ty(), iterable.span);
    let end = template("end_id"@, nth_id(first, 3), int_ty(), iterable.span);
    lemma_init_added(range, Mutability::Immutable, iterable, lo, hi);
    lemma_range_field_added(range, PrimField::Start, lo, hi);
    lemma_range_field_added(range, PrimField::Step, lo, hi);
    lemma_range_field_added(range, PrimField::End, lo, hi);
    lemma_init_added(index, Mutability::Mutable, new_range_field(range, PrimField::Start), lo, hi);
    lemma_init_added(step, Mutability::Immutable, new_range_field(range, PrimField::Step), lo, hi);
    lemma_init_added(end, Mutability::Immutable, new_range_field(range, PrimField::End), lo, hi);
    lemma_local_ref_added(index, lo, hi);
    lemma_local_ref_added(step, lo, hi);
    let looping = outer.stmts[4];
    let looped = looping.kind->Expr_0.kind->While_1;
    let pat_init = looped.stmts[0];
    assert(added_within_stmt(pat_init, lo, hi));
    lemma_update_added(BinOp::Add, index, step.local_ref(), lo, hi);
    let update = new_update(BinOp::Add, index, step.local_ref());
    lemma_wrapped_added(body, pat_init, update, lo, hi);
    lemma_range_guard_added(index, step, end, iterable.span, lo, hi);
    lemma_while_added(range_guard(index, step, end, iterable.span), wrapped(body, pat_init, update), span, lo, hi);
    assert forall|i: int| 0 <= i < outer.stmts.len() implies added_within_stmt(
        #[trigger] outer.stmts[i], lo, hi) by {}
    lemma_block_expr_added(span, outer.stmts, lo, hi);
}

} // verus!
