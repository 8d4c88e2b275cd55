//! The locals that the pass adds to a `repeat` loop have identities that
//! the pass drew.

use vstd::prelude::*;
use crate::global::TermView;
use crate::hir::{ExprKindView, ExprView};
use crate::loop_unification::model::{
    fresh_block, fresh_expr, fresh_opt_block, lower_block, lower_expr, lower_opt_block,
    lowerable_expr,
};
use crate::assigner::PLACEHOLDER;
use crate::loop_unification::added::added_within_expr;
use crate::loop_unification::fresh_locals::repeat_expansion_added::lemma_repeat_expansion_added;
use crate::loop_unification::hygiene::expr_keeps_range::lemma_expr_keeps_range;
use crate::loop_unification::hygiene::opt_block_keeps_range::lemma_opt_block_keeps_range;
use crate::loop_unification::hygiene::block_keeps_range::lemma_block_keeps_range;

verus! {

/// The locals that the pass adds to a `repeat` loop have identities that
/// the pass drew.
pub proof fn lemma_repeat_loop_keeps_range(
    e: ExprView,
    next: nat,
    core: Seq<TermView>,
    lo: nat,
    hi: nat,
)
    requires
        lowerable_expr(e, core),
        added_within_expr(e, lo, hi),
        lo <= next,
        next + fresh_expr(e) <= hi,
        hi <= PLACEHOLDER,
        e.kind is Repeat,
    ensures
        added_within_expr(lower_expr(e, next, core), lo, hi),
    decreases e, 0nat,
{
    reveal_with_fuel(lower_expr, 1);
    reveal_with_fuel(lowerable_expr, 1);
    reveal_with_fuel(fresh_expr, 1);
    match e.kind {
        ExprKindView::Repeat(body, until, fixup) => {
            lemma_block_keeps_range(body, next, core, lo, hi);
            lemma_expr_keeps_range(*until, next + fresh_block(body), core, lo, hi);
            lemma_opt_block_keeps_range(
                fixup,
                next + fresh_block(body) + fresh_expr(*until),
                core,
                lo,
                hi,
            );
            lemma_repeat_expansion_added(
                lower_block(body, next, core),
                lower_expr(*until, next + fresh_block(body), core),
                lower_opt_block(fixup, next + fresh_block(body) + fresh_expr(*until), core),
                e.span,
                next + fresh_block(body) + fresh_expr(*until) + fresh_opt_block(fixup),
                lo,
                hi,
            );
        },
        _ => {},
    }
}

} // verus!
