//! The walk over `repeat` loops.

use vstd::prelude::*;
use crate::assigner::{Assigner, PLACEHOLDER};
use crate::global::Table;
use crate::hir::{Expr, ExprKind};
use crate::loop_unification::model;
use crate::loop_unification::model::{fresh_expr, lowerable_expr};
use crate::loop_unification::walk::expr::lower_expr;
use crate::loop_unification::walk::block::lower_block;
use crate::loop_unification::walk::opt::lower_opt_block;
use crate::loop_unification::rules::repeat::lower_repeat;

verus! {

/// Lowers every loop in the parts of the `repeat` loop `e`, then the loop
/// itself.
pub fn lower_repeat_loop(core: &Table, assigner: &mut Assigner, e: Expr) -> (r: Expr)
    requires
        e@.kind is Repeat,
        lowerable_expr(e@, core@),
        old(assigner)@ + fresh_expr(e@) <= PLACEHOLDER,
    ensures
        r@ == model::lower_expr(e@, old(assigner)@, core@),
        final(assigner)@ == old(assigner)@ + fresh_expr(e@),
    decreases e, 0nat,
{
    reveal_with_fuel(model::lower_expr, 1);
    reveal_with_fuel(lowerable_expr, 1);
    reveal_with_fuel(fresh_expr, 1);
    let Expr { id, span, ty, kind } = e;
    match kind {
        ExprKind::Repeat(body, until, fixup) => {
            let body = lower_block(core, assigner, body);
            let until = lower_expr(core, assigner, *until);
            let fixup = lower_opt_block(core, assigner, fixup);
            lower_repeat(assigner, body, until, fixup, span)
        },
        kind => Expr { id, span, ty, kind },
    }
}

} // verus!
