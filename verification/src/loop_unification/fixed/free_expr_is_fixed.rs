//! The pass leaves an expression without `for` and `repeat` loops as it is,
//! and draws no identity for it.

use vstd::prelude::*;
use crate::global::TermView;
use crate::hir::{BinOp, ExprKindView, ExprView};
use crate::loop_unification::model::{fresh_expr, fresh_opt_expr, lower_expr, lowerable_expr};
use crate::loop_unification::primitive::sugar_free_expr;

use crate::loop_unification::fixed::free_opt_expr_is_fixed::lemma_free_opt_expr_is_fixed;
use crate::loop_unification::fixed::free_exprs_are_fixed::lemma_free_exprs_are_fixed;
use crate::loop_unification::fixed::free_components_are_fixed::lemma_free_components_are_fixed;
use crate::loop_unification::fixed::free_block_is_fixed::lemma_free_block_is_fixed;

verus! {

/// The pass leaves an expression without `for` and `repeat` loops as it is,
/// and draws no identity for it.
pub proof fn lemma_free_expr_is_fixed(e: ExprView, next: nat, core: Seq<TermView>)
    requires
        sugar_free_expr(e),
    ensures
        lowerable_expr(e, core),
        fresh_expr(e) == 0,
        lower_expr(e, next, core) == e,
    decreases e,
{
    reveal_with_fuel(lower_expr, 1);
    reveal_with_fuel(lowerable_expr, 1);
    reveal_with_fuel(fresh_expr, 1);
    match e.kind {
        ExprKindView::Array(items) => {
            lemma_free_exprs_are_fixed(items, next, core);
        },
        ExprKindView::Assign(lhs, rhs) => {
            lemma_free_expr_is_fixed(*lhs, next, core);
            lemma_free_expr_is_fixed(*rhs, next + fresh_expr(*lhs), core);
        },
        ExprKindView::AssignOp(_, lhs, rhs) => {
            lemma_free_expr_is_fixed(*lhs, next, core);
            lemma_free_expr_is_fixed(*rhs, next + fresh_expr(*lhs), core);
        },
        ExprKindView::BinOp(_, lhs, rhs) => {
            lemma_free_expr_is_fixed(*lhs, next, core);
            lemma_free_expr_is_fixed(*rhs, next + fresh_expr(*lhs), core);
        },
        ExprKindView::Block(block) => {
            lemma_free_block_is_fixed(block, next, core);
        },
        ExprKindView::Call(callee, arg) => {
            lemma_free_expr_is_fixed(*callee, next, core);
            lemma_free_expr_is_fixed(*arg, next + fresh_expr(*callee), core);
        },
        ExprKindView::Fail(message) => {
            lemma_free_expr_is_fixed(*message, next, core);
        },
        ExprKindView::Field(record, _) => {
            lemma_free_expr_is_fixed(*record, next, core);
        },
        ExprKindView::For(_, _, _) => {},
        ExprKindView::If(cond, body, otherwise) => {
            lemma_free_expr_is_fixed(*cond, next, core);
            lemma_free_expr_is_fixed(*body, next + fresh_expr(*cond), core);
            lemma_free_opt_expr_is_fixed(
                otherwise,
                next + fresh_expr(*cond) + fresh_expr(*body),
                core,
            );
        },
        ExprKindView::Index(array, index) => {
            lemma_free_expr_is_fixed(*array, next, core);
            lemma_free_expr_is_fixed(*index, next + fresh_expr(*array), core);
        },
        ExprKindView::Lit(_) => {},
        ExprKindView::Range(start, step, end) => {
            lemma_free_opt_expr_is_fixed(start, next, core);
            lemma_free_opt_expr_is_fixed(step, next + fresh_opt_expr(start), core);
            lemma_free_opt_expr_is_fixed(
                end,
                next + fresh_opt_expr(start) + fresh_opt_expr(step),
                core,
            );
        },
        ExprKindView::Repeat(_, _, _) => {},
        ExprKindView::Return(value) => {
            lemma_free_expr_is_fixed(*value, next, core);
        },
        ExprKindView::String(components) => {
            lemma_free_components_are_fixed(components, next, core);
        },
        ExprKindView::Tuple(items) => {
            lemma_free_exprs_are_fixed(items, next, core);
        },
        ExprKindView::UnOp(_, operand) => {
            lemma_free_expr_is_fixed(*operand, next, core);
        },
        ExprKindView::Var(_, _) => {},
        ExprKindView::While(cond, body) => {
            lemma_free_expr_is_fixed(*cond, next, core);
            lemma_free_block_is_fixed(body, next + fresh_expr(*cond), core);
        },
    }
}

} // verus!
