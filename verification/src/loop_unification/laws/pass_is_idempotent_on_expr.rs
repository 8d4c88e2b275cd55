//! Running the pass again on an expression changes nothing.

use vstd::prelude::*;
use crate::global::TermView;
use crate::hir::ExprView;
use crate::loop_unification::model::{fresh_expr, lower_expr, lowerable_expr};
use crate::loop_unification::fixed::free_expr_is_fixed::lemma_free_expr_is_fixed;
use crate::loop_unification::removal::lowered_expr_is_free::lemma_lowered_expr_is_free;

verus! {

/// Running the pass again on an expression changes nothing.
pub proof fn lemma_pass_is_idempotent_on_expr(e: ExprView, next: nat, again: nat, core: Seq<TermView>)
    requires
        lowerable_expr(e, core),
    ensures
        lowerable_expr(lower_expr(e, next, core), core),
        fresh_expr(lower_expr(e, next, core)) == 0,
        lower_expr(lower_expr(e, next, core), again, core) == lower_expr(e, next, core),
{
    lemma_lowered_expr_is_free(e, next, core);
    lemma_free_expr_is_fixed(lower_expr(e, next, core), again, core);
}

} // verus!
