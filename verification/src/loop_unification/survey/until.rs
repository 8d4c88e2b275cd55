//! Surveys the condition of a `repeat` loop: whether it is Boolean. The loop
//! needs one fresh local for itself.

use vstd::prelude::*;
use crate::hir::Expr;
use crate::loop_unification::expansion::bool_ty;
use crate::loop_unification::model::lowered_ty;
use crate::loop_unification::survey::{capped, Survey};
use crate::ty::{Prim, Ty};
use crate::loop_unification::survey::is_sugar::is_sugar;

verus! {

/// Surveys the condition of a `repeat` loop: whether it is Boolean. The loop
/// needs one fresh local for itself.
pub fn survey_until(until: &Expr) -> (r: Survey)
    ensures
        r.lowerable == (lowered_ty(until@) == bool_ty()),
        r.fresh == capped(1),
{
    let boolean = !is_sugar(until) && match &until.ty {
        Ty::Prim(Prim::Bool) => true,
        _ => false,
    };
    Survey { lowerable: boolean, fresh: Some(1) }
}

} // verus!
