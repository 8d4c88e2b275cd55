//! The pass leaves a specialization without `for` and `repeat` loops as it
//! is.

use vstd::prelude::*;
use crate::global::TermView;
use crate::hir::{SpecBodyView, SpecDeclView};
use crate::loop_unification::model::{fresh_spec, lower_spec, lowerable_spec};
use crate::loop_unification::primitive::sugar_free_spec;

use crate::loop_unification::fixed::free_block_is_fixed::lemma_free_block_is_fixed;

verus! {

/// The pass leaves a specialization without `for` and `repeat` loops as it
/// is.
pub proof fn lemma_free_spec_is_fixed(spec: SpecDeclView, next: nat, core: Seq<TermView>)
    requires
        sugar_free_spec(spec),
    ensures
        lowerable_spec(spec, core),
        fresh_spec(spec) == 0,
        lower_spec(spec, next, core) == spec,
{
    match spec.body {
        SpecBodyView::Gen(_) => {},
        SpecBodyView::Impl(_, block) => lemma_free_block_is_fixed(block, next, core),
    }
}

} // verus!
