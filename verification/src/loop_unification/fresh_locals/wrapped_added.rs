//! A body with one statement before and one after holds no loop if none of
//! them holds one.

use vstd::prelude::*;
use crate::hir::{BlockView, StmtView};
use crate::loop_unification::expansion::wrapped;
use crate::loop_unification::added::{added_within_block, added_within_stmt};

verus! {

/// A body with one statement before and one after holds no loop if none of
/// them holds one.
pub proof fn lemma_wrapped_added(body: BlockView, first: StmtView, last: StmtView, lo: nat, hi: nat)
    requires
        added_within_block(body, lo, hi),
        added_within_stmt(first, lo, hi),
        added_within_stmt(last, lo, hi),
    ensures
        added_within_block(wrapped(body, first, last), lo, hi),
{
    let stmts = wrapped(body, first, last).stmts;
    assert forall|i: int| 0 <= i < stmts.len() implies added_within_stmt(#[trigger] stmts[i], lo, hi) by {
        if 1 <= i <= body.stmts.len() {
            assert(stmts[i] == body.stmts[i - 1]);
        }
    }
}

} // verus!
