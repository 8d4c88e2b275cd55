//! Surveys a block that may be absent.

use vstd::prelude::*;
use crate::global::Table;
use crate::hir::{opt_block_view, Block};
use crate::loop_unification::model::{fresh_opt_block, lowerable_opt_block};
use crate::loop_unification::survey::{capped, Survey};
use crate::loop_unification::survey::block::survey_block;

verus! {

/// Surveys a block that may be absent.
pub fn survey_opt_block(core: &Table, block: &Option<Block>) -> (r: Survey)
    ensures
        r.lowerable == lowerable_opt_block(opt_block_view(*block), core@),
        r.fresh == capped(fresh_opt_block(opt_block_view(*block))),
    decreases block, 0nat,
{
    match block {
        Some(block) => survey_block(core, block),
        None => Survey::nothing(),
    }
}

} // verus!
