//! The added locals of a list of statements that lie in a range lie in
//! every wider one.

use vstd::prelude::*;
use crate::hir::StmtView;
use crate::loop_unification::added::{added_within_stmt, added_within_stmts};
use crate::loop_unification::widening::stmt_widens::lemma_stmt_widens;

verus! {

/// The added locals of a list of statements that lie in a range lie in
/// every wider one.
pub proof fn lemma_stmts_widens(stmts: Seq<StmtView>, lo: nat, hi: nat, wide_lo: nat, wide_hi: nat)
    requires
        added_within_stmts(stmts, lo, hi),
        (wide_lo <= lo && hi <= wide_hi) || lo >= hi,
    ensures
        added_within_stmts(stmts, wide_lo, wide_hi),
    decreases stmts,
{
    assert forall|i: int| 0 <= i < stmts.len() implies added_within_stmt(
        #[trigger] stmts[i],
        wide_lo,
        wide_hi,
    ) by {
        lemma_stmt_widens(stmts[i], lo, hi, wide_lo, wide_hi);
    }
}

} // verus!
