//! The locals that the pass adds to a `for` loop have identities that
//! the pass drew.

use vstd::prelude::*;
use crate::global::TermView;
use crate::hir::{ExprKindView, ExprView};
use crate::loop_unification::model::{
    fresh_block, fresh_expr, lower_block, lower_expr, lowerable_expr, lowered_ty,
};
use crate::ty::{Prim, TyView};
use crate::assigner::PLACEHOLDER;
use crate::loop_unification::added::added_within_expr;
use crate::loop_unification::fresh_locals::for_array_expansion_added::lemma_for_array_expansion_added;
use crate::loop_unification::fresh_locals::for_range_expansion_added::lemma_for_range_expansion_added;
use crate::loop_unification::model::lemma_lowered_shape;
use crate::loop_unification::hygiene::expr_keeps_range::lemma_expr_keeps_range;
use crate::loop_unification::hygiene::block_keeps_range::lemma_block_keeps_range;

verus! {

/// The locals that the pass adds to a `for` loop have identities that
/// the pass drew.
pub proof fn lemma_for_loop_keeps_range(
    e: ExprView,
    next: nat,
    core: Seq<TermView>,
    lo: nat,
    hi: nat,
)
    requires
        lowerable_expr(e, core),
        added_within_expr(e, lo, hi),
        lo <= next,
        next + fresh_expr(e) <= hi,
        hi <= PLACEHOLDER,
        e.kind is For,
    ensures
        added_within_expr(lower_expr(e, next, core), lo, hi),
    decreases e, 0nat,
{
    reveal_with_fuel(lower_expr, 1);
    reveal_with_fuel(lowerable_expr, 1);
    reveal_with_fuel(fresh_expr, 1);
    match e.kind {
        ExprKindView::For(pat, iterable, body) => {
            let first = next + fresh_expr(*iterable) + fresh_block(body);
            lemma_expr_keeps_range(*iterable, next, core, lo, hi);
            lemma_block_keeps_range(body, next + fresh_expr(*iterable), core, lo, hi);
            lemma_lowered_shape(*iterable, next, core);
            let lowered_iterable = lower_expr(*iterable, next, core);
            let lowered_body = lower_block(body, next + fresh_expr(*iterable), core);
            match lowered_ty(*iterable) {
                TyView::Array(_) => {
                    lemma_for_array_expansion_added(
                        pat,
                        lowered_iterable,
                        lowered_body,
                        e.span,
                        first,
                        core,
                        lo,
                        hi,
                    );
                },
                TyView::Prim(Prim::Range) => {
                    lemma_for_range_expansion_added(pat, lowered_iterable, lowered_body, e.span, first, lo, hi);
                },
                _ => {},
            }
        },
        _ => {},
    }
}

} // verus!
