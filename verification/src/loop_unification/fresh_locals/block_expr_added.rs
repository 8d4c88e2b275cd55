//! A block that the pass adds holds no loop if its statements hold none.

use vstd::prelude::*;
use crate::hir::StmtView;
use crate::loop_unification::expansion::new_block_expr;
use crate::span::Span;
use crate::loop_unification::added::{added_within_block, added_within_expr, added_within_stmts};

verus! {

/// A block that the pass adds holds no loop if its statements hold none.
pub proof fn lemma_block_expr_added(span: Span, stmts: Seq<StmtView>, lo: nat, hi: nat)
    requires
        added_within_stmts(stmts, lo, hi),
    ensures
        added_within_expr(new_block_expr(span, stmts), lo, hi),
{
    let block = new_block_expr(span, stmts).kind->Block_0;
    assert(added_within_block(block, lo, hi));
}

} // verus!
