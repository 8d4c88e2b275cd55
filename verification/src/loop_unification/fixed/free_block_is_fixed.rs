//! The pass leaves a block without `for` and `repeat` loops as it is.

use vstd::prelude::*;
use crate::global::TermView;
use crate::hir::BlockView;
use crate::loop_unification::model::{fresh_block, lower_block, lowerable_block};
use crate::loop_unification::primitive::sugar_free_block;

use crate::loop_unification::fixed::free_stmts_are_fixed::lemma_free_stmts_are_fixed;

verus! {

/// The pass leaves a block without `for` and `repeat` loops as it is.
pub proof fn lemma_free_block_is_fixed(block: BlockView, next: nat, core: Seq<TermView>)
    requires
        sugar_free_block(block),
    ensures
        lowerable_block(block, core),
        fresh_block(block) == 0,
        lower_block(block, next, core) == block,
    decreases block,
{
    lemma_free_stmts_are_fixed(block.stmts, next, core);
}

} // verus!
