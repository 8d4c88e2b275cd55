//! What stands in place of a `for` loop over an array holds no `for` and no
//! `repeat` loop if the loop's parts hold none.

use vstd::prelude::*;
use crate::global::TermView;
use crate::hir::{BlockView, ExprView, PatView};
use crate::loop_unification::expansion::{array_item, for_array_expansion, length_callee, wrapped};
use crate::span::Span;
use crate::assigner::PLACEHOLDER;
use crate::loop_unification::added::{
    added_within_block, added_within_expr, added_within_stmt, binder_within,
};
use crate::loop_unification::fresh_locals::while_added::lemma_while_added;
use crate::loop_unification::fresh_locals::block_expr_added::lemma_block_expr_added;
use crate::loop_unification::fresh_locals::wrapped_added::lemma_wrapped_added;

verus! {

/// What stands in place of a `for` loop over an array holds no `for` and no
/// `repeat` loop if the loop's parts hold none.
pub proof fn lemma_for_array_expansion_added(
    pat: PatView,
    iterable: ExprView,
    body: BlockView,
    span: Span,
    first: nat,
    core: Seq<TermView>,
    lo: nat,
    hi: nat,
)
    requires
        added_within_expr(iterable, lo, hi),
        added_within_block(body, lo, hi),
        length_callee(core, array_item(iterable.ty), iterable.span) is Some,
        binder_within(pat, lo, hi),
        lo <= first,
        first + 3 <= hi,
        hi <= PLACEHOLDER,
    ensures
        added_within_expr(for_array_expansion(pat, iterable, body, span, first, core), lo, hi),
{
    reveal(for_array_expansion);
    let expansion = for_array_expansion(pat, iterable, body, span, first, core);
    let outer = expansion.kind->Block_0;
    let array_capture = outer.stmts[0];
    let len_capture = outer.stmts[1];
    let index_init = outer.stmts[2];
    let looping = outer.stmts[3];
    let call = len_capture.kind->Local_2;
    let callee = call.kind->Call_0;
    assert(added_within_expr(*callee, lo, hi));
    assert(added_within_expr(*call.kind->Call_1, lo, hi));
    assert(added_within_expr(call, lo, hi));
    assert(added_within_stmt(len_capture, lo, hi));
    assert(added_within_expr(array_capture.kind->Local_2, lo, hi));
    assert(added_within_stmt(array_capture, lo, hi));
    assert(added_within_expr(index_init.kind->Local_2, lo, hi));
    assert(added_within_stmt(index_init, lo, hi));
    let cond = *looping.kind->Expr_0.kind->While_0;
    let looped = looping.kind->Expr_0.kind->While_1;
    assert(added_within_expr(*cond.kind->BinOp_1, lo, hi));
    assert(added_within_expr(*cond.kind->BinOp_2, lo, hi));
    assert(added_within_expr(cond, lo, hi));
    let pat_init = looped.stmts[0];
    let indexed = pat_init.kind->Local_2;
    assert(added_within_expr(*indexed.kind->Index_0, lo, hi));
    assert(added_within_expr(*indexed.kind->Index_1, lo, hi));
    assert(added_within_expr(indexed, lo, hi));
    assert(added_within_stmt(pat_init, lo, hi));
    let update = looped.stmts[body.stmts.len() as int + 1];
    let step = update.kind->Semi_0;
    assert(added_within_expr(*step.kind->AssignOp_1, lo, hi));
    assert(added_within_expr(*step.kind->AssignOp_2, lo, hi));
    assert(added_within_expr(step, lo, hi));
    assert(added_within_stmt(update, lo, hi));
    lemma_wrapped_added(body, pat_init, update, lo, hi);
    assert(looped == wrapped(body, pat_init, update));
    lemma_while_added(cond, looped, span, lo, hi);
    assert forall|i: int| 0 <= i < outer.stmts.len() implies added_within_stmt(
        #[trigger] outer.stmts[i], lo, hi) by {}
    lemma_block_expr_added(span, outer.stmts, lo, hi);
}

} // verus!
