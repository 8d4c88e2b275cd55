//! Every local that the pass adds is fresh: in a tree that holds no added
//! local yet, the locals added by the pass carry exactly identities that
//! the pass drew, from `next` up to where it leaves the allocator.

use vstd::prelude::*;
use crate::global::TermView;
use crate::hir::ExprView;
use crate::loop_unification::model::{fresh_expr, lower_expr, lowerable_expr};
use crate::assigner::PLACEHOLDER;
use crate::loop_unification::added::added_within_expr;
use crate::loop_unification::hygiene::expr_keeps_range::lemma_expr_keeps_range;
use crate::loop_unification::widening::expr_widens::lemma_expr_widens;

verus! {

/// Every local that the pass adds is fresh: in a tree that holds no added
/// local yet, the locals added by the pass carry exactly identities that
/// the pass drew, from `next` up to where it leaves the allocator.
pub proof fn lemma_added_locals_are_fresh(e: ExprView, next: nat, core: Seq<TermView>)
    requires
        lowerable_expr(e, core),
        added_within_expr(e, 0, 0),
        next + fresh_expr(e) <= PLACEHOLDER,
    ensures
        added_within_expr(lower_expr(e, next, core), next, next + fresh_expr(e)),
{
    lemma_expr_widens(e, 0, 0, next, next + fresh_expr(e));
    lemma_expr_keeps_range(e, next, core, next, next + fresh_expr(e));
}

} // verus!
