//! Every local that the pass adds to an expression has an identity that
//! the pass drew for it: where the locals added before lie between `lo` and
//! `hi`, and so do the identities from `next` on that the pass draws, the
//! locals added after the pass lie there as well.

use vstd::prelude::*;
use crate::global::TermView;
use crate::hir::{BinOp, ExprKindView, ExprView};
use crate::loop_unification::model::{fresh_expr, lower_expr, lowerable_expr};
use crate::assigner::PLACEHOLDER;
use crate::loop_unification::added::added_within_expr;
use crate::loop_unification::hygiene::unary_keeps_range::lemma_unary_keeps_range;
use crate::loop_unification::hygiene::binary_keeps_range::lemma_binary_keeps_range;
use crate::loop_unification::hygiene::listed_keeps_range::lemma_listed_keeps_range;
use crate::loop_unification::hygiene::branching_keeps_range::lemma_branching_keeps_range;
use crate::loop_unification::hygiene::blocked_keeps_range::lemma_blocked_keeps_range;
use crate::loop_unification::hygiene::for_loop_keeps_range::lemma_for_loop_keeps_range;
use crate::loop_unification::hygiene::repeat_loop_keeps_range::lemma_repeat_loop_keeps_range;

verus! {

/// Every local that the pass adds to an expression has an identity that
/// the pass drew for it: where the locals added before lie between `lo` and
/// `hi`, and so do the identities from `next` on that the pass draws, the
/// locals added after the pass lie there as well.
pub proof fn lemma_expr_keeps_range(
    e: ExprView,
    next: nat,
    core: Seq<TermView>,
    lo: nat,
    hi: nat,
)
    requires
        lowerable_expr(e, core),
        added_within_expr(e, lo, hi),
        lo <= next,
        next + fresh_expr(e) <= hi,
        hi <= PLACEHOLDER,
    ensures
        added_within_expr(lower_expr(e, next, core), lo, hi),
    decreases e, 1nat,
{
    match e.kind {
        ExprKindView::Fail(_)
        | ExprKindView::Field(_, _)
        | ExprKindView::Return(_)
        | ExprKindView::UnOp(_, _) => lemma_unary_keeps_range(e, next, core, lo, hi),
        ExprKindView::Assign(_, _)
        | ExprKindView::AssignOp(_, _, _)
        | ExprKindView::BinOp(_, _, _)
        | ExprKindView::Call(_, _)
        | ExprKindView::Index(_, _) => lemma_binary_keeps_range(e, next, core, lo, hi),
        ExprKindView::Array(_) | ExprKindView::Tuple(_) | ExprKindView::String(_) => {
            lemma_listed_keeps_range(e, next, core, lo, hi)
        },
        ExprKindView::If(_, _, _) | ExprKindView::Range(_, _, _) => {
            lemma_branching_keeps_range(e, next, core, lo, hi)
        },
        ExprKindView::Block(_) | ExprKindView::While(_, _) => {
            lemma_blocked_keeps_range(e, next, core, lo, hi)
        },
        ExprKindView::For(_, _, _) => lemma_for_loop_keeps_range(e, next, core, lo, hi),
        ExprKindView::Repeat(_, _, _) => lemma_repeat_loop_keeps_range(e, next, core, lo, hi),
        ExprKindView::Lit(_) | ExprKindView::Var(_, _) => {
            reveal_with_fuel(lower_expr, 1);
        },
    }
}

} // verus!
