//! In what stands in place of a `for` loop over an array, every expression
//! of the iterable and of the body occurs exactly as often as there, and
//! every expression that was added carries the placeholder.

use vstd::prelude::*;
use crate::global::TermView;
use crate::hir::{BlockView, ExprView, PatView};
use crate::loop_unification::expansion::{array_item, for_array_expansion, length_callee, wrapped};
use crate::span::Span;
use crate::assigner::{NodeId, PLACEHOLDER};
use crate::loop_unification::occurrences::{occ_block, occ_expr, occ_stmt};
use crate::loop_unification::once::occ_while::lemma_occ_while;
use crate::loop_unification::once::occ_block_expr::lemma_occ_block_expr;
use crate::loop_unification::once::occ_wrapped::lemma_occ_wrapped;
use crate::loop_unification::once::occ_four::lemma_occ_four;

verus! {

/// In what stands in place of a `for` loop over an array, every expression
/// of the iterable and of the body occurs exactly as often as there, and
/// every expression that was added carries the placeholder.
pub proof fn lemma_occ_for_array_expansion(
    id: NodeId,
    pat: PatView,
    iterable: ExprView,
    body: BlockView,
    span: Span,
    first: nat,
    core: Seq<TermView>,
)
    requires
        id != NodeId(PLACEHOLDER),
        length_callee(core, array_item(iterable.ty), iterable.span) is Some,
    ensures
        occ_expr(id, for_array_expansion(pat, iterable, body, span, first, core)) == occ_expr(
            id,
            iterable,
        ) + occ_block(id, body),
{
    reveal(for_array_expansion);
    let expansion = for_array_expansion(pat, iterable, body, span, first, core);
    let outer = expansion.kind->Block_0;
    let array_capture = outer.stmts[0];
    let len_capture = outer.stmts[1];
    let index_init = outer.stmts[2];
    let looping = outer.stmts[3];
    let call = len_capture.kind->Local_2;
    assert(occ_expr(id, *call.kind->Call_0) == 0);
    assert(occ_expr(id, *call.kind->Call_1) == 0);
    assert(occ_expr(id, call) == 0);
    assert(occ_stmt(id, len_capture) == 0);
    assert(occ_stmt(id, array_capture) == occ_expr(id, iterable));
    assert(occ_expr(id, index_init.kind->Local_2) == 0);
    assert(occ_stmt(id, index_init) == 0);
    let cond = *looping.kind->Expr_0.kind->While_0;
    let looped = looping.kind->Expr_0.kind->While_1;
    assert(occ_expr(id, *cond.kind->BinOp_1) == 0);
    assert(occ_expr(id, *cond.kind->BinOp_2) == 0);
    assert(occ_expr(id, cond) == 0);
    let pat_init = looped.stmts[0];
    let indexed = pat_init.kind->Local_2;
    assert(occ_expr(id, *indexed.kind->Index_0) == 0);
    assert(occ_expr(id, *indexed.kind->Index_1) == 0);
    assert(occ_expr(id, indexed) == 0);
    assert(occ_stmt(id, pat_init) == 0);
    let update = looped.stmts[body.stmts.len() as int + 1];
    let step = update.kind->Semi_0;
    assert(occ_expr(id, *step.kind->AssignOp_1) == 0);
    assert(occ_expr(id, *step.kind->AssignOp_2) == 0);
    assert(occ_expr(id, step) == 0);
    assert(occ_stmt(id, update) == 0);
    lemma_occ_wrapped(id, body, pat_init, update);
    assert(looped == wrapped(body, pat_init, update));
    lemma_occ_while(id, cond, looped, span);
    lemma_occ_four(id, array_capture, len_capture, index_init, looping);
    assert(outer.stmts =~= seq![array_capture, len_capture, index_init, looping]);
    lemma_occ_block_expr(id, span, outer.stmts);
}

} // verus!
