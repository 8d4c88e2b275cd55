//! The locals that the pass adds to an expression with two operands have identities that
//! the pass drew.

use vstd::prelude::*;
use crate::global::TermView;
use crate::hir::{BinOp, ExprKindView, ExprView};
use crate::loop_unification::model::{fresh_expr, lower_expr, lowerable_expr};
use crate::assigner::PLACEHOLDER;
use crate::loop_unification::added::added_within_expr;
use crate::loop_unification::hygiene::expr_keeps_range::lemma_expr_keeps_range;

verus! {

/// The locals that the pass adds to an expression with two operands have identities that
/// the pass drew.
pub proof fn lemma_binary_keeps_range(
    e: ExprView,
    next: nat,
    core: Seq<TermView>,
    lo: nat,
    hi: nat,
)
    requires
        lowerable_expr(e, core),
        added_within_expr(e, lo, hi),
        lo <= next,
        next + fresh_expr(e) <= hi,
        hi <= PLACEHOLDER,
        e.kind is Assign || e.kind is AssignOp || e.kind is BinOp || e.kind is Call || e.kind is Index,
    ensures
        added_within_expr(lower_expr(e, next, core), lo, hi),
    decreases e, 0nat,
{
    reveal_with_fuel(lower_expr, 1);
    reveal_with_fuel(lowerable_expr, 1);
    reveal_with_fuel(fresh_expr, 1);
    match e.kind {
        ExprKindView::Assign(lhs, rhs) => {
            lemma_expr_keeps_range(*lhs, next, core, lo, hi);
            lemma_expr_keeps_range(*rhs, next + fresh_expr(*lhs), core, lo, hi);
        },
        ExprKindView::AssignOp(_, lhs, rhs) => {
            lemma_expr_keeps_range(*lhs, next, core, lo, hi);
            lemma_expr_keeps_range(*rhs, next + fresh_expr(*lhs), core, lo, hi);
        },
        ExprKindView::BinOp(_, lhs, rhs) => {
            lemma_expr_keeps_range(*lhs, next, core, lo, hi);
            lemma_expr_keeps_range(*rhs, next + fresh_expr(*lhs), core, lo, hi);
        },
        ExprKindView::Call(callee, arg) => {
            lemma_expr_keeps_range(*callee, next, core, lo, hi);
            lemma_expr_keeps_range(*arg, next + fresh_expr(*callee), core, lo, hi);
        },
        ExprKindView::Index(array, index) => {
            lemma_expr_keeps_range(*array, next, core, lo, hi);
            lemma_expr_keeps_range(*index, next + fresh_expr(*array), core, lo, hi);
        },
        _ => {},
    }
}

} // verus!
