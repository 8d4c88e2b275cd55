//! After the pass the pieces of an interpolated string hold every expression that is no
//! loop itself as often as before.

use vstd::prelude::*;
use crate::global::TermView;
use crate::hir::StringComponentView;
use crate::loop_unification::model::{
    component_counts, lower_components, lowerable_components, total, total_before,
};
use crate::assigner::{NodeId, PLACEHOLDER};
use crate::loop_unification::occurrences::occ_component_counts;
use crate::loop_unification::occurrences::kept_component_counts;
use crate::loop_unification::kept::component_kept::lemma_component_kept;

verus! {

/// After the pass the pieces of an interpolated string hold every expression that is no
/// loop itself as often as before.
pub proof fn lemma_components_kept(
    id: NodeId,
    components: Seq<StringComponentView>,
    next: nat,
    core: Seq<TermView>,
)
    requires
        id != NodeId(PLACEHOLDER),
        lowerable_components(components, core),
    ensures
        total(occ_component_counts(id, lower_components(components, next, core))) == total(kept_component_counts(id, components)),
    decreases components, 0nat,
{
    let lowered = lower_components(components, next, core);
    let after = occ_component_counts(id, lowered);
    let before = kept_component_counts(id, components);
    assert forall|i: int| 0 <= i < after.len() implies after[i] == before[i] by {
        lemma_component_kept(id, components[i], next + total_before(component_counts(components), i), core);
    }
    assert(after =~= before);
}

} // verus!
