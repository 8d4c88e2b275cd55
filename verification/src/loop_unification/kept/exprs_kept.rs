//! After the pass a list of expressions holds every expression that is no
//! loop itself as often as before.

use vstd::prelude::*;
use crate::global::TermView;
use crate::hir::ExprView;
use crate::loop_unification::model::{
    expr_counts, lower_exprs, lowerable_exprs, total, total_before,
};
use crate::assigner::{NodeId, PLACEHOLDER};
use crate::loop_unification::occurrences::occ_expr_counts;
use crate::loop_unification::occurrences::kept_expr_counts;
use crate::loop_unification::kept::expr_kept::lemma_expr_kept;

verus! {

/// After the pass a list of expressions holds every expression that is no
/// loop itself as often as before.
pub proof fn lemma_exprs_kept(id: NodeId, exprs: Seq<ExprView>, next: nat, core: Seq<TermView>)
    requires
        id != NodeId(PLACEHOLDER),
        lowerable_exprs(exprs, core),
    ensures
        total(occ_expr_counts(id, lower_exprs(exprs, next, core))) == total(kept_expr_counts(id, exprs)),
    decreases exprs, 0nat,
{
    let lowered = lower_exprs(exprs, next, core);
    let after = occ_expr_counts(id, lowered);
    let before = kept_expr_counts(id, exprs);
    assert forall|i: int| 0 <= i < after.len() implies after[i] == before[i] by {
        lemma_expr_kept(id, exprs[i], next + total_before(expr_counts(exprs), i), core);
    }
    assert(after =~= before);
}

} // verus!
