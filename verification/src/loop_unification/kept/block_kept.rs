//! After the pass a block holds every expression that is no
//! loop itself as often as before.

use vstd::prelude::*;
use crate::global::TermView;
use crate::hir::BlockView;
use crate::loop_unification::model::{lower_block, lowerable_block};
use crate::assigner::{NodeId, PLACEHOLDER};
use crate::loop_unification::occurrences::occ_block;
use crate::loop_unification::occurrences::kept_block;
use crate::loop_unification::kept::stmts_kept::lemma_stmts_kept;

verus! {

/// After the pass a block holds every expression that is no
/// loop itself as often as before.
pub proof fn lemma_block_kept(id: NodeId, block: BlockView, next: nat, core: Seq<TermView>)
    requires
        id != NodeId(PLACEHOLDER),
        lowerable_block(block, core),
    ensures
        occ_block(id, lower_block(block, next, core)) == kept_block(id, block),
    decreases block, 0nat,
{
    lemma_stmts_kept(id, block.stmts, next, core);
}

} // verus!
