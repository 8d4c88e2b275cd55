//! A list of counts that are all zero sums to zero.

use vstd::prelude::*;
use crate::loop_unification::model::total;

verus! {

/// A list of counts that are all zero sums to zero.
pub proof fn lemma_total_zero(counts: Seq<nat>)
    requires
        forall|i: int| 0 <= i < counts.len() ==> counts[i] == 0,
    ensures
        total(counts) == 0,
    decreases counts.len(),
{
    if counts.len() > 0 {
        lemma_total_zero(counts.drop_last());
    }
}

} // verus!
