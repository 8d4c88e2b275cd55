//! The added locals of an expression that lie in a range lie in
//! every wider one.

use vstd::prelude::*;
use crate::hir::{BinOp, ExprKindView, ExprView};
use crate::loop_unification::added::added_within_expr;
use crate::loop_unification::widening::opt_expr_widens::lemma_opt_expr_widens;
use crate::loop_unification::widening::opt_block_widens::lemma_opt_block_widens;
use crate::loop_unification::widening::exprs_widens::lemma_exprs_widens;
use crate::loop_unification::widening::components_widens::lemma_components_widens;
use crate::loop_unification::widening::block_widens::lemma_block_widens;

verus! {

/// The added locals of an expression that lie in a range lie in
/// every wider one.
pub proof fn lemma_expr_widens(e: ExprView, lo: nat, hi: nat, wide_lo: nat, wide_hi: nat)
    requires
        added_within_expr(e, lo, hi),
        (wide_lo <= lo && hi <= wide_hi) || lo >= hi,
    ensures
        added_within_expr(e, wide_lo, wide_hi),
    decreases e,
{
    match e.kind {
        ExprKindView::Array(items) => {
            lemma_exprs_widens(items, lo, hi, wide_lo, wide_hi);
        },
        ExprKindView::Assign(lhs, rhs) => {
            lemma_expr_widens(*lhs, lo, hi, wide_lo, wide_hi);
            lemma_expr_widens(*rhs, lo, hi, wide_lo, wide_hi);
        },
        ExprKindView::AssignOp(_, lhs, rhs) => {
            lemma_expr_widens(*lhs, lo, hi, wide_lo, wide_hi);
            lemma_expr_widens(*rhs, lo, hi, wide_lo, wide_hi);
        },
        ExprKindView::BinOp(_, lhs, rhs) => {
            lemma_expr_widens(*lhs, lo, hi, wide_lo, wide_hi);
            lemma_expr_widens(*rhs, lo, hi, wide_lo, wide_hi);
        },
        ExprKindView::Block(block) => {
            lemma_block_widens(block, lo, hi, wide_lo, wide_hi);
        },
        ExprKindView::Call(callee, arg) => {
            lemma_expr_widens(*callee, lo, hi, wide_lo, wide_hi);
            lemma_expr_widens(*arg, lo, hi, wide_lo, wide_hi);
        },
        ExprKindView::Fail(message) => {
            lemma_expr_widens(*message, lo, hi, wide_lo, wide_hi);
        },
        ExprKindView::Field(record, _) => {
            lemma_expr_widens(*record, lo, hi, wide_lo, wide_hi);
        },
        ExprKindView::For(_, iterable, body) => {
            lemma_expr_widens(*iterable, lo, hi, wide_lo, wide_hi);
            lemma_block_widens(body, lo, hi, wide_lo, wide_hi);
        },
        ExprKindView::If(cond, body, otherwise) => {
            lemma_expr_widens(*cond, lo, hi, wide_lo, wide_hi);
            lemma_expr_widens(*body, lo, hi, wide_lo, wide_hi);
            lemma_opt_expr_widens(otherwise, lo, hi, wide_lo, wide_hi);
        },
        ExprKindView::Index(array, index) => {
            lemma_expr_widens(*array, lo, hi, wide_lo, wide_hi);
            lemma_expr_widens(*index, lo, hi, wide_lo, wide_hi);
        },
        ExprKindView::Lit(_) => {},
        ExprKindView::Range(start, step, end) => {
            lemma_opt_expr_widens(start, lo, hi, wide_lo, wide_hi);
            lemma_opt_expr_widens(step, lo, hi, wide_lo, wide_hi);
            lemma_opt_expr_widens(end, lo, hi, wide_lo, wide_hi);
        },
        ExprKindView::Repeat(body, until, fixup) => {
            lemma_block_widens(body, lo, hi, wide_lo, wide_hi);
            lemma_expr_widens(*until, lo, hi, wide_lo, wide_hi);
            lemma_opt_block_widens(fixup, lo, hi, wide_lo, wide_hi);
        },
        ExprKindView::Return(value) => {
            lemma_expr_widens(*value, lo, hi, wide_lo, wide_hi);
        },
        ExprKindView::String(components) => {
            lemma_components_widens(components, lo, hi, wide_lo, wide_hi);
        },
        ExprKindView::Tuple(items) => {
            lemma_exprs_widens(items, lo, hi, wide_lo, wide_hi);
        },
        ExprKindView::UnOp(_, operand) => {
            lemma_expr_widens(*operand, lo, hi, wide_lo, wide_hi);
        },
        ExprKindView::Var(_, _) => {},
        ExprKindView::While(cond, body) => {
            lemma_expr_widens(*cond, lo, hi, wide_lo, wide_hi);
            lemma_block_widens(body, lo, hi, wide_lo, wide_hi);
        },
    }
}

} // verus!
