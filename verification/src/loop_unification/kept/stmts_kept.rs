//! After the pass a list of statements holds every expression that is no
//! loop itself as often as before.

use vstd::prelude::*;
use crate::global::TermView;
use crate::hir::StmtView;
use crate::loop_unification::model::{
    lower_stmts, lowerable_stmts, stmt_counts, total, total_before,
};
use crate::assigner::{NodeId, PLACEHOLDER};
use crate::loop_unification::occurrences::occ_stmt_counts;
use crate::loop_unification::occurrences::kept_stmt_counts;
use crate::loop_unification::kept::stmt_kept::lemma_stmt_kept;

verus! {

/// After the pass a list of statements holds every expression that is no
/// loop itself as often as before.
pub proof fn lemma_stmts_kept(id: NodeId, stmts: Seq<StmtView>, next: nat, core: Seq<TermView>)
    requires
        id != NodeId(PLACEHOLDER),
        lowerable_stmts(stmts, core),
    ensures
        total(occ_stmt_counts(id, lower_stmts(stmts, next, core))) == total(kept_stmt_counts(id, stmts)),
    decreases stmts, 0nat,
{
    let lowered = lower_stmts(stmts, next, core);
    let after = occ_stmt_counts(id, lowered);
    let before = kept_stmt_counts(id, stmts);
    assert forall|i: int| 0 <= i < after.len() implies after[i] == before[i] by {
        lemma_stmt_kept(id, stmts[i], next + total_before(stmt_counts(stmts), i), core);
    }
    assert(after =~= before);
}

} // verus!
