//! The loops inside a `for` loop get their identities before the loop
//! itself: every local added to the iterable and to the body has an identity
//! below the first one of the loop's own locals.

use vstd::prelude::*;
use crate::global::TermView;
use crate::hir::ExprView;
use crate::loop_unification::model::{
    for_fresh, fresh_block, fresh_expr, lower_block, lower_expr, lowerable_expr,
};
use crate::assigner::PLACEHOLDER;
use crate::loop_unification::added::{added_within_block, added_within_expr};
use crate::loop_unification::hygiene::block_keeps_range::lemma_block_keeps_range;
use crate::loop_unification::hygiene::expr_keeps_range::lemma_expr_keeps_range;
use crate::loop_unification::widening::block_widens::lemma_block_widens;
use crate::loop_unification::widening::expr_widens::lemma_expr_widens;

verus! {

/// The loops inside a `for` loop get their identities before the loop
/// itself: every local added to the iterable and to the body has an identity
/// below the first one of the loop's own locals.
pub proof fn lemma_for_draws_after_its_parts(e: ExprView, next: nat, core: Seq<TermView>)
    requires
        e.kind is For,
        lowerable_expr(e, core),
        added_within_expr(e, 0, 0),
        next + fresh_expr(e) <= PLACEHOLDER,
    ensures
        ({
            let iterable = *e.kind->For_1;
            let body = e.kind->For_2;
            let after_iterable = next + fresh_expr(iterable);
            let own = after_iterable + fresh_block(body);
            &&& added_within_expr(lower_expr(iterable, next, core), next, own)
            &&& added_within_block(lower_block(body, after_iterable, core), next, own)
            &&& own + for_fresh(iterable) == next + fresh_expr(e)
        }),
{
    reveal_with_fuel(lowerable_expr, 1);
    reveal_with_fuel(fresh_expr, 1);
    let iterable = *e.kind->For_1;
    let body = e.kind->For_2;
    let after_iterable = next + fresh_expr(iterable);
    let own = after_iterable + fresh_block(body);
    lemma_expr_widens(iterable, 0, 0, next, own);
    lemma_block_widens(body, 0, 0, next, own);
    lemma_expr_keeps_range(iterable, next, core, next, own);
    lemma_block_keeps_range(body, after_iterable, core, next, own);
}

} // verus!
