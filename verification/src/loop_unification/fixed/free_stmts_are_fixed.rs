//! The pass leaves a list of statements without `for` and `repeat` loops as
//! it is.

use vstd::prelude::*;
use crate::global::TermView;
use crate::hir::StmtView;
use crate::loop_unification::model::{
    lower_stmts, lowerable_stmt, lowerable_stmts, stmt_counts, total, total_before,
};
use crate::loop_unification::primitive::sugar_free_stmts;

use crate::loop_unification::fixed::total_zero::lemma_total_zero;
use crate::loop_unification::fixed::free_stmt_is_fixed::lemma_free_stmt_is_fixed;

verus! {

/// The pass leaves a list of statements without `for` and `repeat` loops as
/// it is.
pub proof fn lemma_free_stmts_are_fixed(stmts: Seq<StmtView>, next: nat, core: Seq<TermView>)
    requires
        sugar_free_stmts(stmts),
    ensures
        lowerable_stmts(stmts, core),
        total(stmt_counts(stmts)) == 0,
        lower_stmts(stmts, next, core) == stmts,
    decreases stmts,
{
    let lowered = lower_stmts(stmts, next, core);
    let counts = stmt_counts(stmts);
    assert forall|i: int| 0 <= i < stmts.len() implies lowerable_stmt(#[trigger] stmts[i], core)
        && counts[i] == 0 && lowered[i] == stmts[i] by {
        lemma_free_stmt_is_fixed(stmts[i], next + total_before(counts, i), core);
    }
    lemma_total_zero(counts);
    assert(lowered =~= stmts);
}

} // verus!
