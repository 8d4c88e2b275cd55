//! The sum of two lists of counts laid end to end is the sum of their sums.

use vstd::prelude::*;
use crate::loop_unification::model::total;

verus! {

/// The sum of two lists of counts laid end to end is the sum of their sums.
pub proof fn lemma_total_concat(a: Seq<nat>, b: Seq<nat>)
    ensures
        total(a + b) == total(a) + total(b),
    decreases b.len(),
{
    if b.len() == 0 {
        assert(a + b =~= a);
    } else {
        assert((a + b).drop_last() =~= a + b.drop_last());
        lemma_total_concat(a, b.drop_last());
    }
}

} // verus!
