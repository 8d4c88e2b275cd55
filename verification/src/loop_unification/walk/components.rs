//! The walk over lists of pieces of interpolated strings.

use vstd::prelude::*;
use crate::assigner::{Assigner, PLACEHOLDER};
use crate::global::Table;
use crate::hir::{components_view, StringComponent};
use crate::loop_unification::model;
use crate::loop_unification::model::{
    component_counts, fresh_component, fresh_components, lemma_total_before, lowerable_component,
    lowerable_components, total, total_before,
};
use crate::loop_unification::walk::component::lower_component;

verus! {

/// Lowers every loop in the pieces of an interpolated string, from the first
/// to the last.
pub fn lower_components(
    core: &Table,
    assigner: &mut Assigner,
    components: Vec<StringComponent>,
) -> (r: Vec<StringComponent>)
    requires
        lowerable_components(components_view(components@), core@),
        old(assigner)@ + fresh_components(components_view(components@)) <= PLACEHOLDER,
    ensures
        components_view(r@) == model::lower_components(
            components_view(components@),
            old(assigner)@,
            core@,
        ),
        final(assigner)@ == old(assigner)@ + fresh_components(components_view(components@)),
    decreases components, 0nat,
{
    let ghost start = assigner@;
    let ghost orig = components;
    let ghost views = components_view(components@);
    let ghost counts = component_counts(views);
    let mut out: Vec<StringComponent> = Vec::new();
    proof {
        lemma_total_before(counts, 0);
    }
    for component in iter: components
        invariant
            iter.seq() == orig@,
            components == orig,
            views == components_view(orig@),
            counts == component_counts(views),
            lowerable_components(views, core@),
            start + total(counts) <= PLACEHOLDER,
            out.len() == iter.index(),
            assigner@ == start + total_before(counts, iter.index() as int),
            forall|j: int|
                0 <= j < out.len() ==> (#[trigger] out[j])@ == model::lower_component(
                    views[j],
                    start + total_before(counts, j),
                    core@,
                ),
    {
        let ghost i = iter.index() as int;
        proof {
            lemma_total_before(counts, i);
            lemma_total_before(counts, i + 1);
            assert(views[i] == orig[i]@);
            assert(lowerable_component(views[i], core@));
            assert(counts[i] == fresh_component(views[i]));
            assert(decreases_to!(orig => orig[i]));
        }
        let lowered = lower_component(core, assigner, component);
        out.push(lowered);
    }
    proof {
        lemma_total_before(counts, counts.len() as int);
        assert(components_view(out@) =~= model::lower_components(views, start, core@));
    }
    out
}

} // verus!
