//! The declaration of a fresh local holds the expressions of its value.

use vstd::prelude::*;
use crate::common::IdentTemplateView;
use crate::hir::{ExprView, Mutability};
use crate::assigner::NodeId;
use crate::loop_unification::occurrences::{occ_expr, occ_stmt};

verus! {

/// The declaration of a fresh local holds the expressions of its value.
pub proof fn lemma_occ_init(id: NodeId, local: IdentTemplateView, mutability: Mutability, init: ExprView)
    ensures
        occ_stmt(id, local.init(mutability, init)) == occ_expr(id, init),
{
}

} // verus!
