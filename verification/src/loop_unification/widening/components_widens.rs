//! The added locals of the pieces of an interpolated string that lie in a range lie in
//! every wider one.

use vstd::prelude::*;
use crate::hir::StringComponentView;
use crate::loop_unification::added::{added_within_component, added_within_components};
use crate::loop_unification::widening::component_widens::lemma_component_widens;

verus! {

/// The added locals of the pieces of an interpolated string that lie in a range lie in
/// every wider one.
pub proof fn lemma_components_widens(
    components: Seq<StringComponentView>,
    lo: nat, hi: nat, wide_lo: nat, wide_hi: nat
)
    requires
        added_within_components(components, lo, hi),
        (wide_lo <= lo && hi <= wide_hi) || lo >= hi,
    ensures
        added_within_components(components, wide_lo, wide_hi),
    decreases components,
{
    assert forall|i: int| 0 <= i < components.len() implies added_within_component(
        #[trigger] components[i],
        wide_lo,
        wide_hi,
    ) by {
        lemma_component_widens(components[i], lo, hi, wide_lo, wide_hi);
    }
}

} // verus!
