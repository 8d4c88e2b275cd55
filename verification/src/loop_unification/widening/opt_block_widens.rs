//! The added locals of a block that may be absent that lie in a range lie in
//! every wider one.

use vstd::prelude::*;
use crate::hir::BlockView;
use crate::loop_unification::added::added_within_opt_block;
use crate::loop_unification::widening::block_widens::lemma_block_widens;

verus! {

/// The added locals of a block that may be absent that lie in a range lie in
/// every wider one.
pub proof fn lemma_opt_block_widens(block: Option<BlockView>, lo: nat, hi: nat, wide_lo: nat, wide_hi: nat)
    requires
        added_within_opt_block(block, lo, hi),
        (wide_lo <= lo && hi <= wide_hi) || lo >= hi,
    ensures
        added_within_opt_block(block, wide_lo, wide_hi),
    decreases block,
{
    match block {
        Some(block) => lemma_block_widens(block, lo, hi, wide_lo, wide_hi),
        None => {},
    }
}

} // verus!
