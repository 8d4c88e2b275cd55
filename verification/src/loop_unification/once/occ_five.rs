//! The sum of the counts of the statements of a block that the pass adds,
//! for five statements.

use vstd::prelude::*;
use crate::hir::StmtView;
use crate::loop_unification::model::{lemma_total_before, total};
use crate::assigner::NodeId;
use crate::loop_unification::occurrences::{occ_stmt, occ_stmt_counts};

verus! {

/// The sum of the counts of the statements of a block that the pass adds,
/// for five statements.
pub proof fn lemma_occ_five(
    id: NodeId,
    a: StmtView,
    b: StmtView,
    c: StmtView,
    d: StmtView,
    e: StmtView,
)
    ensures
        total(occ_stmt_counts(id, seq![a, b, c, d, e])) == occ_stmt(id, a) + occ_stmt(id, b)
            + occ_stmt(id, c) + occ_stmt(id, d) + occ_stmt(id, e),
{
    let counts = occ_stmt_counts(id, seq![a, b, c, d, e]);
    lemma_total_before(counts, 0);
    lemma_total_before(counts, 1);
    lemma_total_before(counts, 2);
    lemma_total_before(counts, 3);
    lemma_total_before(counts, 4);
    lemma_total_before(counts, 5);
}

} // verus!
