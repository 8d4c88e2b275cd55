//! The loops inside a `repeat` loop get their identities before the loop
//! itself: every local added to the body, the condition and the fixup has an
//! identity below the one of the loop's own flag.

use vstd::prelude::*;
use crate::global::TermView;
use crate::hir::ExprView;
use crate::loop_unification::model::{
    fresh_block, fresh_expr, fresh_opt_block, lower_block, lower_expr, lower_opt_block,
    lowerable_expr,
};
use crate::assigner::PLACEHOLDER;
use crate::loop_unification::added::{added_within_block, added_within_expr, added_within_opt_block};
use crate::loop_unification::hygiene::block_keeps_range::lemma_block_keeps_range;
use crate::loop_unification::hygiene::expr_keeps_range::lemma_expr_keeps_range;
use crate::loop_unification::hygiene::opt_block_keeps_range::lemma_opt_block_keeps_range;
use crate::loop_unification::widening::block_widens::lemma_block_widens;
use crate::loop_unification::widening::expr_widens::lemma_expr_widens;
use crate::loop_unification::widening::opt_block_widens::lemma_opt_block_widens;

verus! {

/// The loops inside a `repeat` loop get their identities before the loop
/// itself: every local added to the body, the condition and the fixup has an
/// identity below the one of the loop's own flag.
pub proof fn lemma_repeat_draws_after_its_parts(e: ExprView, next: nat, core: Seq<TermView>)
    requires
        e.kind is Repeat,
        lowerable_expr(e, core),
        added_within_expr(e, 0, 0),
        next + fresh_expr(e) <= PLACEHOLDER,
    ensures
        ({
            let body = e.kind->Repeat_0;
            let until = *e.kind->Repeat_1;
            let fixup = e.kind->Repeat_2;
            let after_body = next + fresh_block(body);
            let after_until = after_body + fresh_expr(until);
            let own = after_until + fresh_opt_block(fixup);
            &&& added_within_block(lower_block(body, next, core), next, own)
            &&& added_within_expr(lower_expr(until, after_body, core), next, own)
            &&& added_within_opt_block(lower_opt_block(fixup, after_until, core), next, own)
            &&& own + 1 == next + fresh_expr(e)
        }),
{
    reveal_with_fuel(lowerable_expr, 1);
    reveal_with_fuel(fresh_expr, 1);
    let body = e.kind->Repeat_0;
    let until = *e.kind->Repeat_1;
    let fixup = e.kind->Repeat_2;
    let after_body = next + fresh_block(body);
    let after_until = after_body + fresh_expr(until);
    let own = after_until + fresh_opt_block(fixup);
    lemma_block_widens(body, 0, 0, next, own);
    lemma_expr_widens(until, 0, 0, next, own);
    lemma_opt_block_widens(fixup, 0, 0, next, own);
    lemma_block_keeps_range(body, next, core, next, own);
    lemma_expr_keeps_range(until, after_body, core, next, own);
    lemma_opt_block_keeps_range(fixup, after_until, core, next, own);
}

} // verus!
