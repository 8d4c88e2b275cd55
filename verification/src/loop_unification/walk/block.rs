//! The walk over blocks.

use vstd::prelude::*;
use crate::assigner::{Assigner, PLACEHOLDER};
use crate::global::Table;
use crate::hir::Block;
use crate::loop_unification::model;
use crate::loop_unification::model::{fresh_block, lowerable_block};
use crate::loop_unification::walk::stmts::lower_stmts;

verus! {

/// Lowers every loop in a block.
pub fn lower_block(core: &Table, assigner: &mut Assigner, block: Block) -> (r: Block)
    requires
        lowerable_block(block@, core@),
        old(assigner)@ + fresh_block(block@) <= PLACEHOLDER,
    ensures
        r@ == model::lower_block(block@, old(assigner)@, core@),
        final(assigner)@ == old(assigner)@ + fresh_block(block@),
    decreases block, 0nat,
{
    let Block { id, span, ty, stmts } = block;
    let stmts = lower_stmts(core, assigner, stmts);
    Block { id, span, ty, stmts }
}

} // verus!
