//! After the pass a block holds no `for` and no `repeat` loop.

use vstd::prelude::*;
use crate::global::TermView;
use crate::hir::BlockView;
use crate::loop_unification::model::{lower_block, lowerable_block};
use crate::loop_unification::primitive::sugar_free_block;

use crate::loop_unification::removal::lowered_stmts_are_free::lemma_lowered_stmts_are_free;

verus! {

/// After the pass a block holds no `for` and no `repeat` loop.
pub proof fn lemma_lowered_block_is_free(block: BlockView, next: nat, core: Seq<TermView>)
    requires
        lowerable_block(block, core),
    ensures
        sugar_free_block(lower_block(block, next, core)),
    decreases block,
{
    lemma_lowered_stmts_are_free(block.stmts, next, core);
}

} // verus!
