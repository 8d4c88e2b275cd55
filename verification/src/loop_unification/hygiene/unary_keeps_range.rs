//! The locals that the pass adds to an expression with one operand have identities that
//! the pass drew.

use vstd::prelude::*;
use crate::global::TermView;
use crate::hir::{ExprKindView, ExprView};
use crate::loop_unification::model::{fresh_expr, lower_expr, lowerable_expr};
use crate::assigner::PLACEHOLDER;
use crate::loop_unification::added::added_within_expr;
use crate::loop_unification::hygiene::expr_keeps_range::lemma_expr_keeps_range;

verus! {

/// The locals that the pass adds to an expression with one operand have identities that
/// the pass drew.
pub proof fn lemma_unary_keeps_range(
    e: ExprView,
    next: nat,
    core: Seq<TermView>,
    lo: nat,
    hi: nat,
)
    requires
        lowerable_expr(e, core),
        added_within_expr(e, lo, hi),
        lo <= next,
        next + fresh_expr(e) <= hi,
        hi <= PLACEHOLDER,
        e.kind is Fail || e.kind is Field || e.kind is Return || e.kind is UnOp,
    ensures
        added_within_expr(lower_expr(e, next, core), lo, hi),
    decreases e, 0nat,
{
    reveal_with_fuel(lower_expr, 1);
    reveal_with_fuel(lowerable_expr, 1);
    reveal_with_fuel(fresh_expr, 1);
    match e.kind {
        ExprKindView::Fail(message) => {
            lemma_expr_keeps_range(*message, next, core, lo, hi);
        },
        ExprKindView::Field(record, _) => {
            lemma_expr_keeps_range(*record, next, core, lo, hi);
        },
        ExprKindView::Return(value) => {
            lemma_expr_keeps_range(*value, next, core, lo, hi);
        },
        ExprKindView::UnOp(_, operand) => {
            lemma_expr_keeps_range(*operand, next, core, lo, hi);
        },
        _ => {},
    }
}

} // verus!
