//! The added locals of a block that lie in a range lie in
//! every wider one.

use vstd::prelude::*;
use crate::hir::BlockView;
use crate::loop_unification::added::added_within_block;
use crate::loop_unification::widening::stmts_widens::lemma_stmts_widens;

verus! {

/// The added locals of a block that lie in a range lie in
/// every wider one.
pub proof fn lemma_block_widens(block: BlockView, lo: nat, hi: nat, wide_lo: nat, wide_hi: nat)
    requires
        added_within_block(block, lo, hi),
        (wide_lo <= lo && hi <= wide_hi) || lo >= hi,
    ensures
        added_within_block(block, wide_lo, wide_hi),
    decreases block,
{
    lemma_stmts_widens(block.stmts, lo, hi, wide_lo, wide_hi);
}

} // verus!
