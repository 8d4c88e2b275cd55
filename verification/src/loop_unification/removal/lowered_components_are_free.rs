//! After the pass the pieces of an interpolated string hold no `for` and no
//! `repeat` loop.

use vstd::prelude::*;
use crate::global::TermView;
use crate::hir::StringComponentView;
use crate::loop_unification::model::{
    component_counts, lower_components, lowerable_components, total_before,
};
use crate::loop_unification::primitive::{sugar_free_component, sugar_free_components};

use crate::loop_unification::removal::lowered_component_is_free::lemma_lowered_component_is_free;

verus! {

/// After the pass the pieces of an interpolated string hold no `for` and no
/// `repeat` loop.
pub proof fn lemma_lowered_components_are_free(
    components: Seq<StringComponentView>,
    next: nat,
    core: Seq<TermView>,
)
    requires
        lowerable_components(components, core),
    ensures
        sugar_free_components(lower_components(components, next, core)),
    decreases components,
{
    let lowered = lower_components(components, next, core);
    assert forall|i: int| 0 <= i < lowered.len() implies sugar_free_component(
        #[trigger] lowered[i],
    ) by {
        lemma_lowered_component_is_free(
            components[i],
            next + total_before(component_counts(components), i),
            core,
        );
    }
}

} // verus!
