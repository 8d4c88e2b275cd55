//! The locals that the pass adds to a block have
//! identities that the pass drew.

use vstd::prelude::*;
use crate::global::TermView;
use crate::hir::BlockView;
use crate::loop_unification::model::{fresh_block, lower_block, lowerable_block};
use crate::assigner::PLACEHOLDER;
use crate::loop_unification::added::added_within_block;
use crate::loop_unification::hygiene::stmts_keeps_range::lemma_stmts_keeps_range;

verus! {

/// The locals that the pass adds to a block have
/// identities that the pass drew.
pub proof fn lemma_block_keeps_range(block: BlockView, next: nat, core: Seq<TermView>, lo: nat, hi: nat)
    requires
        lowerable_block(block, core),
        added_within_block(block, lo, hi),
        lo <= next,
        next + fresh_block(block) <= hi,
        hi <= PLACEHOLDER,
    ensures
        added_within_block(lower_block(block, next, core), lo, hi),
    decreases block, 0nat,
{
    lemma_stmts_keeps_range(block.stmts, next, core, lo, hi);
}

} // verus!
