//! Surveys a block.

use vstd::prelude::*;
use crate::global::Table;
use crate::hir::Block;
use crate::loop_unification::model::{fresh_block, lowerable_block};
use crate::loop_unification::survey::{capped, Survey};
use crate::loop_unification::survey::stmts::survey_stmts;

verus! {

/// Surveys a block.
pub fn survey_block(core: &Table, block: &Block) -> (r: Survey)
    ensures
        r.lowerable == lowerable_block(block@, core@),
        r.fresh == capped(fresh_block(block@)),
    decreases block, 0nat,
{
    survey_stmts(core, &block.stmts)
}

} // verus!
