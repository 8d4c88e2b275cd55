//! A `for` loop is lowered after its parts: the iterable is lowered from
//! the first free identity, the body from where the iterable left off, and
//! the loop's own fresh locals get the identities after those that its
//! parts used up, three of them over an array, four over a range.

use vstd::prelude::*;
use crate::global::TermView;
use crate::hir::ExprView;
use crate::loop_unification::expansion::{for_array_expansion, for_range_expansion};
use crate::loop_unification::model::{
    fresh_block, fresh_expr, lower_block, lower_expr, lowerable_block, lowerable_expr, lowered_ty,
};

verus! {

/// A `for` loop is lowered after its parts: the iterable is lowered from
/// the first free identity, the body from where the iterable left off, and
/// the loop's own fresh locals get the identities after those that its
/// parts used up, three of them over an array, four over a range.
pub proof fn lemma_for_is_lowered_after_its_parts(e: ExprView, next: nat, core: Seq<TermView>)
    requires
        e.kind is For,
        lowerable_expr(e, core),
    ensures
        ({
            let pat = e.kind->For_0;
            let iterable = *e.kind->For_1;
            let body = e.kind->For_2;
            let after_iterable = next + fresh_expr(iterable);
            let after_parts = after_iterable + fresh_block(body);
            let lowered_iterable = lower_expr(iterable, next, core);
            let lowered_body = lower_block(body, after_iterable, core);
            &&& lowerable_expr(iterable, core)
            &&& lowerable_block(body, core)
            &&& lowered_ty(iterable) is Array ==> lower_expr(e, next, core) == for_array_expansion(
                pat,
                lowered_iterable,
                lowered_body,
                e.span,
                after_parts,
                core,
            ) && fresh_expr(e) == fresh_expr(iterable) + fresh_block(body) + 3
            &&& !(lowered_ty(iterable) is Array) ==> lower_expr(e, next, core)
                == for_range_expansion(pat, lowered_iterable, lowered_body, e.span, after_parts)
                && fresh_expr(e) == fresh_expr(iterable) + fresh_block(body) + 4
        }),
{
    reveal_with_fuel(lower_expr, 1);
    reveal_with_fuel(lowerable_expr, 1);
    reveal_with_fuel(fresh_expr, 1);
}

} // verus!
