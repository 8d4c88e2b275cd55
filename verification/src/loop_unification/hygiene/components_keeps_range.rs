//! The locals that the pass adds to the pieces of an interpolated string have
//! identities that the pass drew.

use vstd::prelude::*;
use crate::global::TermView;
use crate::hir::StringComponentView;
use crate::loop_unification::model::{
    component_counts, fresh_components, lemma_total_before, lower_components, lowerable_components,
    total_before,
};
use crate::assigner::PLACEHOLDER;
use crate::loop_unification::added::{added_within_component, added_within_components};
use crate::loop_unification::hygiene::component_keeps_range::lemma_component_keeps_range;

verus! {

/// The locals that the pass adds to the pieces of an interpolated string have
/// identities that the pass drew.
pub proof fn lemma_components_keeps_range(
    components: Seq<StringComponentView>,
    next: nat,
    core: Seq<TermView>,
    lo: nat,
    hi: nat,
)
    requires
        lowerable_components(components, core),
        added_within_components(components, lo, hi),
        lo <= next,
        next + fresh_components(components) <= hi,
        hi <= PLACEHOLDER,
    ensures
        added_within_components(lower_components(components, next, core), lo, hi),
    decreases components, 0nat,
{
    let lowered = lower_components(components, next, core);
    let counts = component_counts(components);
    assert forall|i: int| 0 <= i < lowered.len() implies added_within_component(
        #[trigger] lowered[i],
        lo,
        hi,
    ) by {
        lemma_total_before(counts, i);
        lemma_total_before(counts, i + 1);
        lemma_component_keeps_range(components[i], next + total_before(counts, i), core, lo, hi);
    }
}

} // verus!
