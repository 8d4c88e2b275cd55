//! The sum of one count is that count.

use vstd::prelude::*;
use crate::loop_unification::model::total;

verus! {

/// The sum of one count is that count.
pub proof fn lemma_total_single(count: nat)
    ensures
        total(seq![count]) == count,
{
    assert(seq![count].drop_last() =~= Seq::<nat>::empty());
    assert(total(seq![count].drop_last()) == 0);
}

} // verus!
