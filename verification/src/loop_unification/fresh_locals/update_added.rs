//! The statement that moves a fresh local on holds no loop if the operand
//! holds none.

use vstd::prelude::*;
use crate::common::IdentTemplateView;
use crate::hir::{BinOp, ExprView};
use crate::loop_unification::expansion::new_update;
use crate::loop_unification::added::{added_within_expr, added_within_stmt};

use crate::loop_unification::fresh_locals::local_ref_added::lemma_local_ref_added;

verus! {

/// The statement that moves a fresh local on holds no loop if the operand
/// holds none.
pub proof fn lemma_update_added(op: BinOp, local: IdentTemplateView, rhs: ExprView, lo: nat, hi: nat)
    requires
        added_within_expr(rhs, lo, hi),
    ensures
        added_within_stmt(new_update(op, local, rhs), lo, hi),
{
    let e = new_update(op, local, rhs).kind->Semi_0;
    lemma_local_ref_added(local, lo, hi);
    assert(added_within_expr(e, lo, hi));
}

} // verus!
