//! The walk over conditionals and ranges.

use vstd::prelude::*;
use crate::assigner::{Assigner, PLACEHOLDER};
use crate::global::Table;
use crate::hir::{Expr, ExprKind};
use crate::loop_unification::model;
use crate::loop_unification::model::{fresh_expr, lowerable_expr};
use crate::loop_unification::walk::expr::lower_expr;
use crate::loop_unification::walk::opt::lower_opt_expr;

verus! {

/// Lowers every loop in the parts of `e`, from the first to the last.
///
/// `e` is a conditional or a range.
pub fn lower_branching(core: &Table, assigner: &mut Assigner, e: Expr) -> (r: Expr)
    requires
        e@.kind is If || e@.kind is Range,
        lowerable_expr(e@, core@),
        old(assigner)@ + fresh_expr(e@) <= PLACEHOLDER,
    ensures
        r@ == model::lower_expr(e@, old(assigner)@, core@),
        final(assigner)@ == old(assigner)@ + fresh_expr(e@),
    decreases e, 0nat,
{
    reveal_with_fuel(model::lower_expr, 1);
    reveal_with_fuel(lowerable_expr, 1);
    reveal_with_fuel(fresh_expr, 1);
    let Expr { id, span, ty, kind } = e;
    match kind {
        ExprKind::If(cond, body, otherwise) => {
            let cond = lower_expr(core, assigner, *cond);
            let body = lower_expr(core, assigner, *body);
            let otherwise = lower_opt_expr(core, assigner, otherwise);
            Expr { id, span, ty, kind: ExprKind::If(Box::new(cond), Box::new(body), otherwise) }
        },
        ExprKind::Range(start, step, end) => {
            let start = lower_opt_expr(core, assigner, start);
            let step = lower_opt_expr(core, assigner, step);
            let end = lower_opt_expr(core, assigner, end);
            Expr { id, span, ty, kind: ExprKind::Range(start, step, end) }
        },
        kind => Expr { id, span, ty, kind },
    }
}

} // verus!
