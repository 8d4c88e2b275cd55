//! After the pass what stands in place of a `for` loop holds every expression that is no
//! loop itself as often as before.

use vstd::prelude::*;
use crate::global::TermView;
use crate::hir::{ExprKindView, ExprView};
use crate::loop_unification::model::{
    fresh_block, fresh_expr, lower_block, lower_expr, lowerable_expr, lowered_ty,
};
use crate::ty::{Prim, TyView};
use crate::assigner::{NodeId, PLACEHOLDER};
use crate::loop_unification::occurrences::occ_expr;
use crate::loop_unification::model::lemma_lowered_shape;
use crate::loop_unification::occurrences::kept_expr;
use crate::loop_unification::once::occ_for_array_expansion::lemma_occ_for_array_expansion;
use crate::loop_unification::once::occ_for_range_expansion::lemma_occ_for_range_expansion;
use crate::loop_unification::kept::expr_kept::lemma_expr_kept;
use crate::loop_unification::kept::block_kept::lemma_block_kept;

verus! {

/// After the pass what stands in place of a `for` loop holds every expression that is no
/// loop itself as often as before.
pub proof fn lemma_for_loop_kept(id: NodeId, e: ExprView, next: nat, core: Seq<TermView>)
    requires
        id != NodeId(PLACEHOLDER),
        lowerable_expr(e, core),
        e.kind is For,
    ensures
        occ_expr(id, lower_expr(e, next, core)) == kept_expr(id, e),
    decreases e, 0nat,
{
    reveal_with_fuel(lower_expr, 1);
    reveal_with_fuel(lowerable_expr, 1);
    match e.kind {
        ExprKindView::For(pat, iterable, body) => {
            let first = next + fresh_expr(*iterable) + fresh_block(body);
            lemma_expr_kept(id, *iterable, next, core);
            lemma_block_kept(id, body, next + fresh_expr(*iterable), core);
            lemma_lowered_shape(*iterable, next, core);
            let lowered_iterable = lower_expr(*iterable, next, core);
            let lowered_body = lower_block(body, next + fresh_expr(*iterable), core);
            match lowered_ty(*iterable) {
                TyView::Array(_) => {
                    lemma_occ_for_array_expansion(
                        id,
                        pat,
                        lowered_iterable,
                        lowered_body,
                        e.span,
                        first,
                        core,
                    );
                },
                TyView::Prim(Prim::Range) => {
                    lemma_occ_for_range_expansion(id, pat, lowered_iterable, lowered_body, e.span, first);
                },
                _ => {},
            }
        },
        _ => {},
    }
}

} // verus!
