//! The sum of the counts of the statements of a block that the pass adds,
//! for two statements.

use vstd::prelude::*;
use crate::hir::StmtView;
use crate::loop_unification::model::{lemma_total_before, total};
use crate::assigner::NodeId;
use crate::loop_unification::occurrences::{occ_stmt, occ_stmt_counts};

verus! {

/// The sum of the counts of the statements of a block that the pass adds,
/// for two statements.
pub proof fn lemma_occ_two(id: NodeId, a: StmtView, b: StmtView)
    ensures
        total(occ_stmt_counts(id, seq![a, b])) == occ_stmt(id, a) + occ_stmt(id, b),
{
    let counts = occ_stmt_counts(id, seq![a, b]);
    lemma_total_before(counts, 0);
    lemma_total_before(counts, 1);
    lemma_total_before(counts, 2);
}

} // verus!
