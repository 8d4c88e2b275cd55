//! The walk over `for` loops.

use vstd::prelude::*;
use crate::assigner::{Assigner, PLACEHOLDER};
use crate::global::Table;
use crate::hir::{Expr, ExprKind};
use crate::loop_unification::model;
use crate::loop_unification::model::{fresh_expr, lemma_lowered_shape, lowerable_expr};
use crate::loop_unification::walk::expr::lower_expr;
use crate::loop_unification::walk::block::lower_block;
use crate::loop_unification::rules::nodes::is_array;
use crate::loop_unification::rules::nodes::is_range;
use crate::loop_unification::rules::for_array::lower_for_array;
use crate::loop_unification::rules::for_range::lower_for_range;

verus! {

/// Lowers every loop in the parts of the `for` loop `e`, then the loop
/// itself.
pub fn lower_for(core: &Table, assigner: &mut Assigner, e: Expr) -> (r: Expr)
    requires
        e@.kind is For,
        lowerable_expr(e@, core@),
        old(assigner)@ + fresh_expr(e@) <= PLACEHOLDER,
    ensures
        r@ == model::lower_expr(e@, old(assigner)@, core@),
        final(assigner)@ == old(assigner)@ + fresh_expr(e@),
    decreases e, 0nat,
{
    reveal_with_fuel(model::lower_expr, 1);
    reveal_with_fuel(lowerable_expr, 1);
    reveal_with_fuel(fresh_expr, 1);
    let Expr { id, span, ty, kind } = e;
    match kind {
        ExprKind::For(pat, iterable, body) => {
            let ghost source = iterable@;
            let ghost first = assigner@;
            let iterable = lower_expr(core, assigner, *iterable);
            let body = lower_block(core, assigner, body);
            proof {
                lemma_lowered_shape(source, first, core@);
            }
            if is_array(&iterable.ty) {
                lower_for_array(core, assigner, pat, iterable, body, span)
            } else if is_range(&iterable.ty) {
                lower_for_range(assigner, pat, iterable, body, span)
            } else {
                Expr { id, span, ty, kind: ExprKind::For(pat, Box::new(iterable), body) }
            }
        },
        kind => Expr { id, span, ty, kind },
    }
}

} // verus!
