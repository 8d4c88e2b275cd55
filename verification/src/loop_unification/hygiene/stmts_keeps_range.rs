//! The locals that the pass adds to a list of statements have
//! identities that the pass drew.

use vstd::prelude::*;
use crate::global::TermView;
use crate::hir::StmtView;
use crate::loop_unification::model::{
    fresh_stmts, lemma_total_before, lower_stmts, lowerable_stmts, stmt_counts, total_before,
};
use crate::assigner::PLACEHOLDER;
use crate::loop_unification::added::{added_within_stmt, added_within_stmts};
use crate::loop_unification::hygiene::stmt_keeps_range::lemma_stmt_keeps_range;

verus! {

/// The locals that the pass adds to a list of statements have
/// identities that the pass drew.
pub proof fn lemma_stmts_keeps_range(stmts: Seq<StmtView>, next: nat, core: Seq<TermView>, lo: nat, hi: nat)
    requires
        lowerable_stmts(stmts, core),
        added_within_stmts(stmts, lo, hi),
        lo <= next,
        next + fresh_stmts(stmts) <= hi,
        hi <= PLACEHOLDER,
    ensures
        added_within_stmts(lower_stmts(stmts, next, core), lo, hi),
    decreases stmts, 0nat,
{
    let lowered = lower_stmts(stmts, next, core);
    let counts = stmt_counts(stmts);
    assert forall|i: int| 0 <= i < lowered.len() implies added_within_stmt(
        #[trigger] lowered[i],
        lo,
        hi,
    ) by {
        lemma_total_before(counts, i);
        lemma_total_before(counts, i + 1);
        lemma_stmt_keeps_range(stmts[i], next + total_before(counts, i), core, lo, hi);
    }
}

} // verus!
