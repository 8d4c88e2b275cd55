//! After the pass an expression holds no `for` and no `repeat` loop.

use vstd::prelude::*;
use crate::global::TermView;
use crate::hir::{BinOp, ExprKindView, ExprView};
use crate::loop_unification::model::{
    fresh_block, fresh_expr, fresh_opt_block, fresh_opt_expr, lower_block, lower_expr,
    lower_opt_block, lowerable_expr, lowered_ty,
};
use crate::ty::{Prim, TyView};
use crate::loop_unification::primitive::sugar_free_expr;

use crate::loop_unification::free::{
    lemma_for_array_expansion_free, lemma_for_range_expansion_free, lemma_repeat_expansion_free,
};
use crate::loop_unification::model::lemma_lowered_shape;
use crate::loop_unification::removal::lowered_opt_expr_is_free::lemma_lowered_opt_expr_is_free;
use crate::loop_unification::removal::lowered_opt_block_is_free::lemma_lowered_opt_block_is_free;
use crate::loop_unification::removal::lowered_exprs_are_free::lemma_lowered_exprs_are_free;
use crate::loop_unification::removal::lowered_components_are_free::lemma_lowered_components_are_free;
use crate::loop_unification::removal::lowered_block_is_free::lemma_lowered_block_is_free;

verus! {

/// After the pass an expression holds no `for` and no `repeat` loop.
pub proof fn lemma_lowered_expr_is_free(e: ExprView, next: nat, core: Seq<TermView>)
    requires
        lowerable_expr(e, core),
    ensures
        sugar_free_expr(lower_expr(e, next, core)),
    decreases e,
{
    reveal_with_fuel(lower_expr, 1);
    reveal_with_fuel(lowerable_expr, 1);
    match e.kind {
        ExprKindView::Array(items) => {
            lemma_lowered_exprs_are_free(items, next, core);
        },
        ExprKindView::Assign(lhs, rhs) => {
            lemma_lowered_expr_is_free(*lhs, next, core);
            lemma_lowered_expr_is_free(*rhs, next + fresh_expr(*lhs), core);
        },
        ExprKindView::AssignOp(_, lhs, rhs) => {
            lemma_lowered_expr_is_free(*lhs, next, core);
            lemma_lowered_expr_is_free(*rhs, next + fresh_expr(*lhs), core);
        },
        ExprKindView::BinOp(_, lhs, rhs) => {
            lemma_lowered_expr_is_free(*lhs, next, core);
            lemma_lowered_expr_is_free(*rhs, next + fresh_expr(*lhs), core);
        },
        ExprKindView::Block(block) => {
            lemma_lowered_block_is_free(block, next, core);
        },
        ExprKindView::Call(callee, arg) => {
            lemma_lowered_expr_is_free(*callee, next, core);
            lemma_lowered_expr_is_free(*arg, next + fresh_expr(*callee), core);
        },
        ExprKindView::Fail(message) => {
            lemma_lowered_expr_is_free(*message, next, core);
        },
        ExprKindView::Field(record, _) => {
            lemma_lowered_expr_is_free(*record, next, core);
        },
        ExprKindView::For(pat, iterable, body) => {
            let first = next + fresh_expr(*iterable) + fresh_block(body);
            lemma_lowered_expr_is_free(*iterable, next, core);
            lemma_lowered_block_is_free(body, next + fresh_expr(*iterable), core);
            lemma_lowered_shape(*iterable, next, core);
            let lowered_iterable = lower_expr(*iterable, next, core);
            let lowered_body = lower_block(body, next + fresh_expr(*iterable), core);
            match lowered_ty(*iterable) {
                TyView::Array(_) => {
                    lemma_for_array_expansion_free(
                        pat,
                        lowered_iterable,
                        lowered_body,
                        e.span,
                        first,
                        core,
                    );
                },
                TyView::Prim(Prim::Range) => {
                    lemma_for_range_expansion_free(pat, lowered_iterable, lowered_body, e.span, first);
                },
                _ => {},
            }
        },
        ExprKindView::If(cond, body, otherwise) => {
            lemma_lowered_expr_is_free(*cond, next, core);
            lemma_lowered_expr_is_free(*body, next + fresh_expr(*cond), core);
            lemma_lowered_opt_expr_is_free(
                otherwise,
                next + fresh_expr(*cond) + fresh_expr(*body),
                core,
            );
        },
        ExprKindView::Index(array, index) => {
            lemma_lowered_expr_is_free(*array, next, core);
            lemma_lowered_expr_is_free(*index, next + fresh_expr(*array), core);
        },
        ExprKindView::Lit(_) => {},
        ExprKindView::Range(start, step, end) => {
            lemma_lowered_opt_expr_is_free(start, next, core);
            lemma_lowered_opt_expr_is_free(step, next + fresh_opt_expr(start), core);
            lemma_lowered_opt_expr_is_free(
                end,
                next + fresh_opt_expr(start) + fresh_opt_expr(step),
                core,
            );
        },
        ExprKindView::Repeat(body, until, fixup) => {
            lemma_lowered_block_is_free(body, next, core);
            lemma_lowered_expr_is_free(*until, next + fresh_block(body), core);
            lemma_lowered_opt_block_is_free(
                fixup,
                next + fresh_block(body) + fresh_expr(*until),
                core,
            );
            lemma_repeat_expansion_free(
                lower_block(body, next, core),
                lower_expr(*until, next + fresh_block(body), core),
                lower_opt_block(fixup, next + fresh_block(body) + fresh_expr(*until), core),
                e.span,
                next + fresh_block(body) + fresh_expr(*until) + fresh_opt_block(fixup),
            );
        },
        ExprKindView::Return(value) => {
            lemma_lowered_expr_is_free(*value, next, core);
        },
        ExprKindView::String(components) => {
            lemma_lowered_components_are_free(components, next, core);
        },
        ExprKindView::Tuple(items) => {
            lemma_lowered_exprs_are_free(items, next, core);
        },
        ExprKindView::UnOp(_, operand) => {
            lemma_lowered_expr_is_free(*operand, next, core);
        },
        ExprKindView::Var(_, _) => {},
        ExprKindView::While(cond, body) => {
            lemma_lowered_expr_is_free(*cond, next, core);
            lemma_lowered_block_is_free(body, next + fresh_expr(*cond), core);
        },
    }
}

} // verus!
