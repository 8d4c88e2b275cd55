//! A body with one statement before and one after holds the expressions of
//! all three.

use vstd::prelude::*;
use crate::hir::{BlockView, StmtView};
use crate::loop_unification::expansion::wrapped;
use crate::assigner::NodeId;
use crate::loop_unification::occurrences::{occ_block, occ_stmt, occ_stmt_counts};
use crate::loop_unification::once::total_concat::lemma_total_concat;
use crate::loop_unification::once::total_single::lemma_total_single;

verus! {

/// A body with one statement before and one after holds the expressions of
/// all three.
pub proof fn lemma_occ_wrapped(id: NodeId, body: BlockView, first: StmtView, last: StmtView)
    ensures
        occ_block(id, wrapped(body, first, last)) == occ_stmt(id, first) + occ_block(id, body)
            + occ_stmt(id, last),
{
    let stmts = wrapped(body, first, last).stmts;
    let counts = occ_stmt_counts(id, stmts);
    let inner = occ_stmt_counts(id, body.stmts);
    assert(counts =~= seq![occ_stmt(id, first)] + inner + seq![occ_stmt(id, last)]) by {
        assert forall|i: int| 0 <= i < counts.len() implies counts[i] == (seq![
            occ_stmt(id, first),
        ] + inner + seq![occ_stmt(id, last)])[i] by {
            if 1 <= i <= body.stmts.len() {
                assert(stmts[i] == body.stmts[i - 1]);
            }
        }
    }
    lemma_total_concat(seq![occ_stmt(id, first)] + inner, seq![occ_stmt(id, last)]);
    lemma_total_concat(seq![occ_stmt(id, first)], inner);
    lemma_total_single(occ_stmt(id, first));
    lemma_total_single(occ_stmt(id, last));
}

} // verus!
