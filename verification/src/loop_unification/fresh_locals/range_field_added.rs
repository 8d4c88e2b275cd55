//! A field of a fresh range holds no loop.

use vstd::prelude::*;
use crate::common::IdentTemplateView;
use crate::hir::PrimField;
use crate::loop_unification::expansion::new_range_field;
use crate::loop_unification::added::added_within_expr;

use crate::loop_unification::fresh_locals::local_ref_added::lemma_local_ref_added;

verus! {

/// A field of a fresh range holds no loop.
pub proof fn lemma_range_field_added(range: IdentTemplateView, field: PrimField, lo: nat, hi: nat)
    ensures
        added_within_expr(new_range_field(range, field), lo, hi),
{
    lemma_local_ref_added(range, lo, hi);
}

} // verus!
