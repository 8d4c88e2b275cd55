//! The walk over expressions that hold a list.

use vstd::prelude::*;
use crate::assigner::{Assigner, PLACEHOLDER};
use crate::global::Table;
use crate::hir::{Expr, ExprKind};
use crate::loop_unification::model;
use crate::loop_unification::model::{fresh_expr, lowerable_expr};
use crate::loop_unification::walk::exprs::lower_exprs;
use crate::loop_unification::walk::components::lower_components;

verus! {

/// Lowers every loop in the items of `e`, from the first to the last.
///
/// `e` is an array, a tuple or an interpolated string.
pub fn lower_listed(core: &Table, assigner: &mut Assigner, e: Expr) -> (r: Expr)
    requires
        e@.kind is Array || e@.kind is Tuple || e@.kind is String,
        lowerable_expr(e@, core@),
        old(assigner)@ + fresh_expr(e@) <= PLACEHOLDER,
    ensures
        r@ == model::lower_expr(e@, old(assigner)@, core@),
        final(assigner)@ == old(assigner)@ + fresh_expr(e@),
    decreases e, 0nat,
{
    reveal_with_fuel(model::lower_expr, 1);
    reveal_with_fuel(lowerable_expr, 1);
    reveal_with_fuel(fresh_expr, 1);
    let Expr { id, span, ty, kind } = e;
    match kind {
        ExprKind::Array(items) => {
            let items = lower_exprs(core, assigner, items);
            Expr { id, span, ty, kind: ExprKind::Array(items) }
        },
        ExprKind::String(components) => {
            let components = lower_components(core, assigner, components);
            Expr { id, span, ty, kind: ExprKind::String(components) }
        },
        ExprKind::Tuple(items) => {
            let items = lower_exprs(core, assigner, items);
            Expr { id, span, ty, kind: ExprKind::Tuple(items) }
        },
        kind => Expr { id, span, ty, kind },
    }
}

} // verus!
