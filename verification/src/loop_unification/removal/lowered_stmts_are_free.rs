//! After the pass a list of statements holds no `for` and no `repeat` loop.

use vstd::prelude::*;
use crate::global::TermView;
use crate::hir::StmtView;
use crate::loop_unification::model::{lower_stmts, lowerable_stmts, stmt_counts, total_before};
use crate::loop_unification::primitive::{sugar_free_stmt, sugar_free_stmts};

use crate::loop_unification::removal::lowered_stmt_is_free::lemma_lowered_stmt_is_free;

verus! {

/// After the pass a list of statements holds no `for` and no `repeat` loop.
pub proof fn lemma_lowered_stmts_are_free(stmts: Seq<StmtView>, next: nat, core: Seq<TermView>)
    requires
        lowerable_stmts(stmts, core),
    ensures
        sugar_free_stmts(lower_stmts(stmts, next, core)),
    decreases stmts,
{
    let lowered = lower_stmts(stmts, next, core);
    assert forall|i: int| 0 <= i < lowered.len() implies sugar_free_stmt(#[trigger] lowered[i]) by {
        lemma_lowered_stmt_is_free(stmts[i], next + total_before(stmt_counts(stmts), i), core);
    }
}

} // verus!
