//! A `repeat` loop is lowered after its parts: the body is lowered from the
//! first free identity, the condition from where the body left off, the
//! fixup from where the condition left off, and the loop's own flag gets the
//! one identity after those that its parts used up.

use vstd::prelude::*;
use crate::global::TermView;
use crate::hir::ExprView;
use crate::loop_unification::expansion::repeat_expansion;
use crate::loop_unification::model::{
    fresh_block, fresh_expr, fresh_opt_block, lower_block, lower_expr, lower_opt_block,
    lowerable_block, lowerable_expr, lowerable_opt_block,
};

verus! {

/// A `repeat` loop is lowered after its parts: the body is lowered from the
/// first free identity, the condition from where the body left off, the
/// fixup from where the condition left off, and the loop's own flag gets the
/// one identity after those that its parts used up.
pub proof fn lemma_repeat_is_lowered_after_its_parts(e: ExprView, next: nat, core: Seq<TermView>)
    requires
        e.kind is Repeat,
        lowerable_expr(e, core),
    ensures
        ({
            let body = e.kind->Repeat_0;
            let until = *e.kind->Repeat_1;
            let fixup = e.kind->Repeat_2;
            let after_body = next + fresh_block(body);
            let after_until = after_body + fresh_expr(until);
            let after_parts = after_until + fresh_opt_block(fixup);
            &&& lowerable_block(body, core)
            &&& lowerable_expr(until, core)
            &&& lowerable_opt_block(fixup, core)
            &&& lower_expr(e, next, core) == repeat_expansion(
                lower_block(body, next, core),
                lower_expr(until, after_body, core),
                lower_opt_block(fixup, after_until, core),
                e.span,
                after_parts,
            )
            &&& fresh_expr(e) == fresh_block(body) + fresh_expr(until) + fresh_opt_block(fixup) + 1
        }),
{
    reveal_with_fuel(lower_expr, 1);
    reveal_with_fuel(lowerable_expr, 1);
    reveal_with_fuel(fresh_expr, 1);
}

} // verus!
