//! The statement that moves a fresh local on holds the expressions of the
//! operand.

use vstd::prelude::*;
use crate::common::IdentTemplateView;
use crate::hir::{BinOp, ExprView};
use crate::loop_unification::expansion::new_update;
use crate::assigner::{NodeId, PLACEHOLDER};
use crate::loop_unification::occurrences::{occ_expr, occ_stmt};
use crate::loop_unification::once::occ_local_ref::lemma_occ_local_ref;

verus! {

/// The statement that moves a fresh local on holds the expressions of the
/// operand.
pub proof fn lemma_occ_update(id: NodeId, op: BinOp, local: IdentTemplateView, rhs: ExprView)
    requires
        id != NodeId(PLACEHOLDER),
    ensures
        occ_stmt(id, new_update(op, local, rhs)) == occ_expr(id, rhs),
{
    let e = new_update(op, local, rhs).kind->Semi_0;
    lemma_occ_local_ref(id, local);
    assert(occ_expr(id, e) == occ_expr(id, rhs));
}

} // verus!
