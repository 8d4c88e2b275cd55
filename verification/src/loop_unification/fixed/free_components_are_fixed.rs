//! The pass leaves the pieces of an interpolated string without `for` and
//! `repeat` loops as they are.

use vstd::prelude::*;
use crate::global::TermView;
use crate::hir::StringComponentView;
use crate::loop_unification::model::{
    component_counts, lower_components, lowerable_component, lowerable_components, total,
    total_before,
};
use crate::loop_unification::primitive::sugar_free_components;

use crate::loop_unification::fixed::total_zero::lemma_total_zero;
use crate::loop_unification::fixed::free_component_is_fixed::lemma_free_component_is_fixed;

verus! {

/// The pass leaves the pieces of an interpolated string without `for` and
/// `repeat` loops as they are.
pub proof fn lemma_free_components_are_fixed(
    components: Seq<StringComponentView>,
    next: nat,
    core: Seq<TermView>,
)
    requires
        sugar_free_components(components),
    ensures
        lowerable_components(components, core),
        total(component_counts(components)) == 0,
        lower_components(components, next, core) == components,
    decreases components,
{
    let lowered = lower_components(components, next, core);
    let counts = component_counts(components);
    assert forall|i: int| 0 <= i < components.len() implies lowerable_component(
        #[trigger] components[i],
        core,
    ) && counts[i] == 0 && lowered[i] == components[i] by {
        lemma_free_component_is_fixed(components[i], next + total_before(counts, i), core);
    }
    lemma_total_zero(counts);
    assert(lowered =~= components);
}

} // verus!
