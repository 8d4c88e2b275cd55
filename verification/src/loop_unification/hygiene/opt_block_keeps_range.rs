//! The locals that the pass adds to a block that may be absent have
//! identities that the pass drew.

use vstd::prelude::*;
use crate::global::TermView;
use crate::hir::BlockView;
use crate::loop_unification::model::{fresh_opt_block, lower_opt_block, lowerable_opt_block};
use crate::assigner::PLACEHOLDER;
use crate::loop_unification::added::added_within_opt_block;
use crate::loop_unification::hygiene::block_keeps_range::lemma_block_keeps_range;

verus! {

/// The locals that the pass adds to a block that may be absent have
/// identities that the pass drew.
pub proof fn lemma_opt_block_keeps_range(block: Option<BlockView>, next: nat, core: Seq<TermView>, lo: nat, hi: nat)
    requires
        lowerable_opt_block(block, core),
        added_within_opt_block(block, lo, hi),
        lo <= next,
        next + fresh_opt_block(block) <= hi,
        hi <= PLACEHOLDER,
    ensures
        added_within_opt_block(lower_opt_block(block, next, core), lo, hi),
    decreases block, 0nat,
{
    match block {
        Some(block) => lemma_block_keeps_range(block, next, core, lo, hi),
        None => {},
    }
}

} // verus!
