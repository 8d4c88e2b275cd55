//! The locals that the pass adds to a block or a `while` loop have identities that
//! the pass drew.

use vstd::prelude::*;
use crate::global::TermView;
use crate::hir::{ExprKindView, ExprView};
use crate::loop_unification::model::{fresh_expr, lower_expr, lowerable_expr};
use crate::assigner::PLACEHOLDER;
use crate::loop_unification::added::added_within_expr;
use crate::loop_unification::hygiene::expr_keeps_range::lemma_expr_keeps_range;
use crate::loop_unification::hygiene::block_keeps_range::lemma_block_keeps_range;

verus! {

/// The locals that the pass adds to a block or a `while` loop have identities that
/// the pass drew.
pub proof fn lemma_blocked_keeps_range(
    e: ExprView,
    next: nat,
    core: Seq<TermView>,
    lo: nat,
    hi: nat,
)
    requires
        lowerable_expr(e, core),
        added_within_expr(e, lo, hi),
        lo <= next,
        next + fresh_expr(e) <= hi,
        hi <= PLACEHOLDER,
        e.kind is Block || e.kind is While,
    ensures
        added_within_expr(lower_expr(e, next, core), lo, hi),
    decreases e, 0nat,
{
    reveal_with_fuel(lower_expr, 1);
    reveal_with_fuel(lowerable_expr, 1);
    reveal_with_fuel(fresh_expr, 1);
    match e.kind {
        ExprKindView::Block(block) => {
            lemma_block_keeps_range(block, next, core, lo, hi);
        },
        ExprKindView::While(cond, body) => {
            lemma_expr_keeps_range(*cond, next, core, lo, hi);
            lemma_block_keeps_range(body, next + fresh_expr(*cond), core, lo, hi);
        },
        _ => {},
    }
}

} // verus!
