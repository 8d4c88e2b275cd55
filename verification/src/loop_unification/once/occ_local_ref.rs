//! No expression in a reference to a fresh local carries an identity of
//! its own.

use vstd::prelude::*;
use crate::common::IdentTemplateView;
use crate::assigner::{NodeId, PLACEHOLDER};
use crate::loop_unification::occurrences::occ_expr;

verus! {

/// No expression in a reference to a fresh local carries an identity of
/// its own.
pub proof fn lemma_occ_local_ref(id: NodeId, local: IdentTemplateView)
    requires
        id != NodeId(PLACEHOLDER),
    ensures
        occ_expr(id, local.local_ref()) == 0,
{
}

} // verus!
