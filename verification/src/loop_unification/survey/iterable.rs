//! Surveys the expression that a `for` loop goes over: whether it can be
//! looped over, and how many fresh locals the loop needs for itself.

use vstd::prelude::*;
use crate::global::Table;
use crate::hir::Expr;
use crate::loop_unification::model::{for_fresh, iterable_ok};
use crate::loop_unification::rules::nodes::{gen_length_callee, is_array, is_range, item_of};
use crate::loop_unification::survey::{capped, Survey};
use crate::loop_unification::survey::is_sugar::is_sugar;

verus! {

/// Surveys the expression that a `for` loop goes over: whether it can be
/// looped over, and how many fresh locals the loop needs for itself.
pub fn survey_iterable(core: &Table, iterable: &Expr) -> (r: Survey)
    ensures
        r.lowerable == iterable_ok(iterable@, core@),
        r.fresh == capped(for_fresh(iterable@)),
{
    if is_sugar(iterable) {
        Survey { lowerable: false, fresh: Some(0) }
    } else if is_array(&iterable.ty) {
        let callee = gen_length_callee(core, item_of(&iterable.ty), iterable.span);
        Survey { lowerable: callee.is_some(), fresh: Some(3) }
    } else if is_range(&iterable.ty) {
        Survey { lowerable: true, fresh: Some(4) }
    } else {
        Survey { lowerable: false, fresh: Some(0) }
    }
}

} // verus!
