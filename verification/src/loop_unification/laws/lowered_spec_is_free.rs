//! After the pass a specialization holds no `for` and no `repeat` loop.

use vstd::prelude::*;
use crate::global::TermView;
use crate::hir::{SpecBodyView, SpecDeclView};
use crate::loop_unification::model::{lower_spec, lowerable_spec};
use crate::loop_unification::primitive::sugar_free_spec;

use crate::loop_unification::removal::lowered_block_is_free::lemma_lowered_block_is_free;

verus! {

/// After the pass a specialization holds no `for` and no `repeat` loop.
pub proof fn lemma_lowered_spec_is_free(spec: SpecDeclView, next: nat, core: Seq<TermView>)
    requires
        lowerable_spec(spec, core),
    ensures
        sugar_free_spec(lower_spec(spec, next, core)),
{
    match spec.body {
        SpecBodyView::Gen(_) => {},
        SpecBodyView::Impl(_, block) => lemma_lowered_block_is_free(block, next, core),
    }
}

} // verus!
