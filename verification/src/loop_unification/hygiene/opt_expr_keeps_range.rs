//! The locals that the pass adds to an expression that may be absent have
//! identities that the pass drew.

use vstd::prelude::*;
use crate::global::TermView;
use crate::hir::ExprView;
use crate::loop_unification::model::{fresh_opt_expr, lower_opt_expr, lowerable_opt_expr};
use crate::assigner::PLACEHOLDER;
use crate::loop_unification::added::added_within_opt_expr;
use crate::loop_unification::hygiene::expr_keeps_range::lemma_expr_keeps_range;

verus! {

/// The locals that the pass adds to an expression that may be absent have
/// identities that the pass drew.
pub proof fn lemma_opt_expr_keeps_range(e: Option<Box<ExprView>>, next: nat, core: Seq<TermView>, lo: nat, hi: nat)
    requires
        lowerable_opt_expr(e, core),
        added_within_opt_expr(e, lo, hi),
        lo <= next,
        next + fresh_opt_expr(e) <= hi,
        hi <= PLACEHOLDER,
    ensures
        added_within_opt_expr(lower_opt_expr(e, next, core), lo, hi),
    decreases e, 0nat,
{
    match e {
        Some(e) => lemma_expr_keeps_range(*e, next, core, lo, hi),
        None => {},
    }
}

} // verus!
