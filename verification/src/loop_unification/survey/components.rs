//! Surveys the pieces of an interpolated string.

use vstd::prelude::*;
use crate::global::Table;
use crate::hir::{components_view, StringComponent};
use crate::loop_unification::model::{
    component_counts, fresh_component, fresh_components, lemma_total_before, lowerable_component,
    lowerable_components, total_before,
};
use crate::loop_unification::survey::{capped, Survey};
use crate::loop_unification::survey::component::survey_component;

verus! {

/// Surveys the pieces of an interpolated string.
pub fn survey_components(core: &Table, components: &Vec<StringComponent>) -> (r: Survey)
    ensures
        r.lowerable == lowerable_components(components_view(components@), core@),
        r.fresh == capped(fresh_components(components_view(components@))),
    decreases components, 0nat,
{
    let ghost views = components_view(components@);
    let ghost counts = component_counts(views);
    let mut all = Survey::nothing();
    let mut i: usize = 0;
    proof {
        lemma_total_before(counts, 0);
    }
    while i < components.len()
        invariant
            i <= components.len(),
            views == components_view(components@),
            counts == component_counts(views),
            all.lowerable == (forall|j: int| 0 <= j < i ==> lowerable_component(#[trigger] views[j], core@)),
            all.fresh == capped(total_before(counts, i as int)),
        decreases components.len() - i,
    {
        proof {
            lemma_total_before(counts, i as int);
            assert(views[i as int] == components[i as int]@);
            assert(counts[i as int] == fresh_component(views[i as int]));
        }
        let one = survey_component(core, &components[i]);
        all = all.and(one);
        i += 1;
    }
    proof {
        lemma_total_before(counts, counts.len() as int);
    }
    all
}

} // verus!
