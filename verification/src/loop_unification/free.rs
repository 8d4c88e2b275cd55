//! The result of the pass holds no `for` and no `repeat` loop.

use vstd::prelude::*;
use crate::common::IdentTemplateView;
use crate::global::TermView;
use crate::hir::{BinOp, BlockView, ExprView, Mutability, PatView, PrimField, StmtView};
use crate::loop_unification::expansion::{
    array_item, for_array_expansion, for_range_expansion, length_callee, new_block_expr,
    new_range_field, new_update, new_while, range_guard, repeat_expansion, wrapped,
};
use crate::span::Span;
use crate::common::template;
use crate::loop_unification::primitive::{
    sugar_free_block, sugar_free_expr, sugar_free_opt_block, sugar_free_opt_expr, sugar_free_stmt,
    sugar_free_stmts,
};

verus! {

/// A reference to a fresh local holds no loop.
proof fn lemma_local_ref_free(local: IdentTemplateView)
    ensures
        sugar_free_expr(local.local_ref()),
{
}

/// The declaration of a fresh local holds no loop if its value holds none.
proof fn lemma_init_free(local: IdentTemplateView, mutability: Mutability, init: ExprView)
    requires
        sugar_free_expr(init),
    ensures
        sugar_free_stmt(local.init(mutability, init)),
{
}

/// A `while` loop holds no `for` or `repeat` loop if its parts hold none.
proof fn lemma_while_free(cond: ExprView, body: BlockView, span: Span)
    requires
        sugar_free_expr(cond),
        sugar_free_block(body),
    ensures
        sugar_free_stmt(new_while(cond, body, span)),
{
    let e = new_while(cond, body, span).kind->Expr_0;
    assert(sugar_free_expr(e));
}

/// A block that the pass adds holds no loop if its statements hold none.
proof fn lemma_block_expr_free(span: Span, stmts: Seq<StmtView>)
    requires
        sugar_free_stmts(stmts),
    ensures
        sugar_free_expr(new_block_expr(span, stmts)),
{
    let block = new_block_expr(span, stmts).kind->Block_0;
    assert(sugar_free_block(block));
}

/// A body with one statement before and one after holds no loop if none of
/// them holds one.
proof fn lemma_wrapped_free(body: BlockView, first: StmtView, last: StmtView)
    requires
        sugar_free_block(body),
        sugar_free_stmt(first),
        sugar_free_stmt(last),
    ensures
        sugar_free_block(wrapped(body, first, last)),
{
    let stmts = wrapped(body, first, last).stmts;
    assert forall|i: int| 0 <= i < stmts.len() implies sugar_free_stmt(#[trigger] stmts[i]) by {
        if 1 <= i <= body.stmts.len() {
            assert(stmts[i] == body.stmts[i - 1]);
        }
    }
}

/// The statement that moves a fresh local on holds no loop if the operand
/// holds none.
proof fn lemma_update_free(op: BinOp, local: IdentTemplateView, rhs: ExprView)
    requires
        sugar_free_expr(rhs),
    ensures
        sugar_free_stmt(new_update(op, local, rhs)),
{
    let e = new_update(op, local, rhs).kind->Semi_0;
    lemma_local_ref_free(local);
    assert(sugar_free_expr(e));
}

/// What stands in place of a `repeat` loop holds no `for` and no `repeat`
/// loop if the loop's parts hold none.
pub proof fn lemma_repeat_expansion_free(
    body: BlockView,
    until: ExprView,
    fixup: Option<BlockView>,
    span: Span,
    first: nat,
)
    requires
        sugar_free_block(body),
        sugar_free_expr(until),
        sugar_free_opt_block(fixup),
    ensures
        sugar_free_expr(repeat_expansion(body, until, fixup, span, first)),
{
    reveal(repeat_expansion);
    let expansion = repeat_expansion(body, until, fixup, span, first);
    let outer = expansion.kind->Block_0;
    let init = outer.stmts[0];
    let looping = outer.stmts[1];
    let flag = template("continue_cond"@, crate::loop_unification::expansion::nth_id(first, 0), crate::loop_unification::expansion::bool_ty(), until.span);
    let looped = looping.kind->Expr_0.kind->While_1;
    let update = looped.stmts[body.stmts.len() as int];
    lemma_local_ref_free(flag);
    let negated = update.kind->Semi_0.kind->Assign_1;
    assert(sugar_free_expr(*negated));
    assert(sugar_free_expr(update.kind->Semi_0));
    assert(sugar_free_stmt(update));
    if fixup is Some {
        let guarded = looped.stmts[body.stmts.len() as int + 1];
        let conditional = guarded.kind->Expr_0;
        let then = conditional.kind->If_1;
        assert(sugar_free_block(then.kind->Block_0));
        assert(sugar_free_expr(*then));
        assert(sugar_free_expr(*conditional.kind->If_0));
        assert(sugar_free_opt_expr(conditional.kind->If_2));
        assert(sugar_free_expr(conditional));
        assert(sugar_free_stmt(guarded));
    }
    assert forall|i: int| 0 <= i < looped.stmts.len() implies sugar_free_stmt(
        #[trigger] looped.stmts[i],
    ) by {
        if i < body.stmts.len() {
            assert(looped.stmts[i] == body.stmts[i]);
        }
    }
    assert(sugar_free_block(looped));
    lemma_while_free(flag.local_ref(), looped, span);
    assert(sugar_free_expr(init.kind->Local_2));
    assert(sugar_free_stmt(init));
    assert forall|i: int| 0 <= i < outer.stmts.len() implies sugar_free_stmt(
        #[trigger] outer.stmts[i],
    ) by {}
    lemma_block_expr_free(span, outer.stmts);
}

/// What stands in place of a `for` loop over an array holds no `for` and no
/// `repeat` loop if the loop's parts hold none.
pub proof fn lemma_for_array_expansion_free(
    pat: PatView,
    iterable: ExprView,
    body: BlockView,
    span: Span,
    first: nat,
    core: Seq<TermView>,
)
    requires
        sugar_free_expr(iterable),
        sugar_free_block(body),
        length_callee(core, array_item(iterable.ty), iterable.span) is Some,
    ensures
        sugar_free_expr(for_array_expansion(pat, iterable, body, span, first, core)),
{
    reveal(for_array_expansion);
    let expansion = for_array_expansion(pat, iterable, body, span, first, core);
    let outer = expansion.kind->Block_0;
    let array_capture = outer.stmts[0];
    let len_capture = outer.stmts[1];
    let index_init = outer.stmts[2];
    let looping = outer.stmts[3];
    let call = len_capture.kind->Local_2;
    let callee = call.kind->Call_0;
    assert(sugar_free_expr(*callee));
    assert(sugar_free_expr(*call.kind->Call_1));
    assert(sugar_free_expr(call));
    assert(sugar_free_stmt(len_capture));
    assert(sugar_free_expr(array_capture.kind->Local_2));
    assert(sugar_free_stmt(array_capture));
    assert(sugar_free_expr(index_init.kind->Local_2));
    assert(sugar_free_stmt(index_init));
    let cond = *looping.kind->Expr_0.kind->While_0;
    let looped = looping.kind->Expr_0.kind->While_1;
    assert(sugar_free_expr(*cond.kind->BinOp_1));
    assert(sugar_free_expr(*cond.kind->BinOp_2));
    assert(sugar_free_expr(cond));
    let pat_init = looped.stmts[0];
    let indexed = pat_init.kind->Local_2;
    assert(sugar_free_expr(*indexed.kind->Index_0));
    assert(sugar_free_expr(*indexed.kind->Index_1));
    assert(sugar_free_expr(indexed));
    assert(sugar_free_stmt(pat_init));
    let update = looped.stmts[body.stmts.len() as int + 1];
    let step = update.kind->Semi_0;
    assert(sugar_free_expr(*step.kind->AssignOp_1));
    assert(sugar_free_expr(*step.kind->AssignOp_2));
    assert(sugar_free_expr(step));
    assert(sugar_free_stmt(update));
    lemma_wrapped_free(body, pat_init, update);
    assert(looped == wrapped(body, pat_init, update));
    lemma_while_free(cond, looped, span);
    assert forall|i: int| 0 <= i < outer.stmts.len() implies sugar_free_stmt(
        #[trigger] outer.stmts[i],
    ) by {}
    lemma_block_expr_free(span, outer.stmts);
}

/// The test of a loop over a range holds no loop.
proof fn lemma_range_guard_free(
    index: IdentTemplateView,
    step: IdentTemplateView,
    end: IdentTemplateView,
    span: Span,
)
    ensures
        sugar_free_expr(range_guard(index, step, end, span)),
{
    let guard = range_guard(index, step, end, span);
    let rising = *guard.kind->BinOp_1;
    let falling = *guard.kind->BinOp_2;
    let rising_step = *rising.kind->BinOp_1;
    let rising_bound = *rising.kind->BinOp_2;
    let falling_step = *falling.kind->BinOp_1;
    let falling_bound = *falling.kind->BinOp_2;
    lemma_local_ref_free(index);
    lemma_local_ref_free(step);
    lemma_local_ref_free(end);
    assert(sugar_free_expr(*rising_step.kind->BinOp_2));
    assert(sugar_free_expr(rising_step));
    assert(sugar_free_expr(rising_bound));
    assert(sugar_free_expr(*falling_step.kind->BinOp_2));
    assert(sugar_free_expr(falling_step));
    assert(sugar_free_expr(falling_bound));
    assert(sugar_free_expr(rising));
    assert(sugar_free_expr(falling));
}

/// A field of a fresh range holds no loop.
proof fn lemma_range_field_free(range: IdentTemplateView, field: PrimField)
    ensures
        sugar_free_expr(new_range_field(range, field)),
{
    lemma_local_ref_free(range);
}

/// What stands in place of a `for` loop over a range holds no `for` and no
/// `repeat` loop if the loop's parts hold none.
pub proof fn lemma_for_range_expansion_free(
    pat: PatView,
    iterable: ExprView,
    body: BlockView,
    span: Span,
    first: nat,
)
    requires
        sugar_free_expr(iterable),
        sugar_free_block(body),
    ensures
        sugar_free_expr(for_range_expansion(pat, iterable, body, span, first)),
{
    reveal(for_range_expansion);
    let expansion = for_range_expansion(pat, iterable, body, span, first);
    let outer = expansion.kind->Block_0;
    let range = template("range_id"@, crate::loop_unification::expansion::nth_id(first, 0), crate::loop_unification::expansion::range_ty(), iterable.span);
    let index = template("index_id"@, crate::loop_unification::expansion::nth_id(first, 1), crate::loop_unification::expansion::int_ty(), iterable.span);
    let step = template("step_id"@, crate::loop_unification::expansion::nth_id(first, 2), crate::loop_unification::expansion::int_ty(), iterable.span);
    let end = template("end_id"@, crate::loop_unification::expansion::nth_id(first, 3), crate::loop_unification::expansion::int_ty(), iterable.span);
    lemma_init_free(range, Mutability::Immutable, iterable);
    lemma_range_field_free(range, PrimField::Start);
    lemma_range_field_free(range, PrimField::Step);
    lemma_range_field_free(range, PrimField::End);
    lemma_init_free(index, Mutability::Mutable, new_range_field(range, PrimField::Start));
    lemma_init_free(step, Mutability::Immutable, new_range_field(range, PrimField::Step));
    lemma_init_free(end, Mutability::Immutable, new_range_field(range, PrimField::End));
    lemma_local_ref_free(index);
    lemma_local_ref_free(step);
    let looping = outer.stmts[4];
    let looped = looping.kind->Expr_0.kind->While_1;
    let pat_init = looped.stmts[0];
    assert(sugar_free_stmt(pat_init));
    lemma_update_free(BinOp::Add, index, step.local_ref());
    let update = new_update(BinOp::Add, index, step.local_ref());
    lemma_wrapped_free(body, pat_init, update);
    lemma_range_guard_free(index, step, end, iterable.span);
    lemma_while_free(range_guard(index, step, end, iterable.span), wrapped(body, pat_init, update), span);
    assert forall|i: int| 0 <= i < outer.stmts.len() implies sugar_free_stmt(
        #[trigger] outer.stmts[i],
    ) by {}
    lemma_block_expr_free(span, outer.stmts);
}

} // verus!
