//! After the pass a block that may be absent holds no `for` and no `repeat`
//! loop.

use vstd::prelude::*;
use crate::global::TermView;
use crate::hir::BlockView;
use crate::loop_unification::model::{lower_opt_block, lowerable_opt_block};
use crate::loop_unification::primitive::sugar_free_opt_block;

use crate::loop_unification::removal::lowered_block_is_free::lemma_lowered_block_is_free;

verus! {

/// After the pass a block that may be absent holds no `for` and no `repeat`
/// loop.
pub proof fn lemma_lowered_opt_block_is_free(block: Option<BlockView>, next: nat, core: Seq<TermView>)
    requires
        lowerable_opt_block(block, core),
    ensures
        sugar_free_opt_block(lower_opt_block(block, next, core)),
    decreases block,
{
    match block {
        Some(block) => lemma_lowered_block_is_free(block, next, core),
        None => {},
    }
}

} // verus!
