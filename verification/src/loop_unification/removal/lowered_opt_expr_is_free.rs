//! After the pass an expression that may be absent holds no `for` and no
//! `repeat` loop.

use vstd::prelude::*;
use crate::global::TermView;
use crate::hir::ExprView;
use crate::loop_unification::model::{lower_opt_expr, lowerable_opt_expr};
use crate::loop_unification::primitive::sugar_free_opt_expr;

use crate::loop_unification::removal::lowered_expr_is_free::lemma_lowered_expr_is_free;

verus! {

/// After the pass an expression that may be absent holds no `for` and no
/// `repeat` loop.
pub proof fn lemma_lowered_opt_expr_is_free(e: Option<Box<ExprView>>, next: nat, core: Seq<TermView>)
    requires
        lowerable_opt_expr(e, core),
    ensures
        sugar_free_opt_expr(lower_opt_expr(e, next, core)),
    decreases e,
{
    match e {
        Some(e) => lemma_lowered_expr_is_free(*e, next, core),
        None => {},
    }
}

} // verus!
