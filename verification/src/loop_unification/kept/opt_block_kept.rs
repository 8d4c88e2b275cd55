//! After the pass a block that may be absent holds every expression that is no
//! loop itself as often as before.

use vstd::prelude::*;
use crate::global::TermView;
use crate::hir::BlockView;
use crate::loop_unification::model::{lower_opt_block, lowerable_opt_block};
use crate::assigner::{NodeId, PLACEHOLDER};
use crate::loop_unification::occurrences::occ_opt_block;
use crate::loop_unification::occurrences::kept_opt_block;
use crate::loop_unification::kept::block_kept::lemma_block_kept;

verus! {

/// After the pass a block that may be absent holds every expression that is no
/// loop itself as often as before.
pub proof fn lemma_opt_block_kept(id: NodeId, block: Option<BlockView>, next: nat, core: Seq<TermView>)
    requires
        id != NodeId(PLACEHOLDER),
        lowerable_opt_block(block, core),
    ensures
        occ_opt_block(id, lower_opt_block(block, next, core)) == kept_opt_block(id, block),
    decreases block, 0nat,
{
    match block {
        Some(block) => lemma_block_kept(id, block, next, core),
        None => {},
    }
}

} // verus!
