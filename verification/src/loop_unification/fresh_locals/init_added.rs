//! The declaration of a fresh local holds no loop if its value holds none.

use vstd::prelude::*;
use crate::common::IdentTemplateView;
use crate::hir::{ExprView, Mutability};
use crate::loop_unification::added::{added_within_expr, added_within_stmt};

verus! {

/// The declaration of a fresh local holds no loop if its value holds none.
pub proof fn lemma_init_added(local: IdentTemplateView, mutability: Mutability, init: ExprView, lo: nat, hi: nat)
    requires
        added_within_expr(init, lo, hi),
        lo <= local.id.0 < hi,
    ensures
        added_within_stmt(local.init(mutability, init), lo, hi),
{
}

} // verus!
