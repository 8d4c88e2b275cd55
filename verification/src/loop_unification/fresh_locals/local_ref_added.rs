//! A reference to a fresh local holds no loop.

use vstd::prelude::*;
use crate::common::IdentTemplateView;
use crate::loop_unification::added::added_within_expr;

verus! {

/// A reference to a fresh local holds no loop.
pub proof fn lemma_local_ref_added(local: IdentTemplateView, lo: nat, hi: nat)
    ensures
        added_within_expr(local.local_ref(), lo, hi),
{
}

} // verus!
