//! The pass leaves an expression that may be absent and holds no `for` and
//! no `repeat` loop as it is.

use vstd::prelude::*;
use crate::global::TermView;
use crate::hir::ExprView;
use crate::loop_unification::model::{fresh_opt_expr, lower_opt_expr, lowerable_opt_expr};
use crate::loop_unification::primitive::sugar_free_opt_expr;

use crate::loop_unification::fixed::free_expr_is_fixed::lemma_free_expr_is_fixed;

verus! {

/// The pass leaves an expression that may be absent and holds no `for` and
/// no `repeat` loop as it is.
pub proof fn lemma_free_opt_expr_is_fixed(e: Option<Box<ExprView>>, next: nat, core: Seq<TermView>)
    requires
        sugar_free_opt_expr(e),
    ensures
        lowerable_opt_expr(e, core),
        fresh_opt_expr(e) == 0,
        lower_opt_expr(e, next, core) == e,
    decreases e,
{
    match e {
        Some(e) => lemma_free_expr_is_fixed(*e, next, core),
        None => {},
    }
}

} // verus!
