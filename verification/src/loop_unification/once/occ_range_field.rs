//! A field of a fresh range holds no expression with an identity of its
//! own.

use vstd::prelude::*;
use crate::common::IdentTemplateView;
use crate::hir::PrimField;
use crate::loop_unification::expansion::new_range_field;
use crate::assigner::{NodeId, PLACEHOLDER};
use crate::loop_unification::occurrences::occ_expr;
use crate::loop_unification::once::occ_local_ref::lemma_occ_local_ref;

verus! {

/// A field of a fresh range holds no expression with an identity of its
/// own.
pub proof fn lemma_occ_range_field(id: NodeId, range: IdentTemplateView, field: PrimField)
    requires
        id != NodeId(PLACEHOLDER),
    ensures
        occ_expr(id, new_range_field(range, field)) == 0,
{
    lemma_occ_local_ref(id, range);
}

} // verus!
