//! The walk over expressions with two operands.

use vstd::prelude::*;
use crate::assigner::{Assigner, PLACEHOLDER};
use crate::global::Table;
use crate::hir::{BinOp, Expr, ExprKind};
use crate::loop_unification::model;
use crate::loop_unification::model::{fresh_expr, lowerable_expr};
use crate::loop_unification::walk::expr::lower_expr;

verus! {

/// Lowers every loop in the operands of `e`, the left one first.
///
/// `e` is an assignment, a binary operator, a call or an index.
pub fn lower_binary(core: &Table, assigner: &mut Assigner, e: Expr) -> (r: Expr)
    requires
        e@.kind is Assign || e@.kind is AssignOp || e@.kind is BinOp || e@.kind is Call || e@.kind is Index,
        lowerable_expr(e@, core@),
        old(assigner)@ + fresh_expr(e@) <= PLACEHOLDER,
    ensures
        r@ == model::lower_expr(e@, old(assigner)@, core@),
        final(assigner)@ == old(assigner)@ + fresh_expr(e@),
    decreases e, 0nat,
{
    reveal_with_fuel(model::lower_expr, 1);
    reveal_with_fuel(lowerable_expr, 1);
    reveal_with_fuel(fresh_expr, 1);
    let Expr { id, span, ty, kind } = e;
    match kind {
        ExprKind::Assign(lhs, rhs) => {
            let lhs = lower_expr(core, assigner, *lhs);
            let rhs = lower_expr(core, assigner, *rhs);
            Expr { id, span, ty, kind: ExprKind::Assign(Box::new(lhs), Box::new(rhs)) }
        },
        ExprKind::AssignOp(op, lhs, rhs) => {
            let lhs = lower_expr(core, assigner, *lhs);
            let rhs = lower_expr(core, assigner, *rhs);
            Expr { id, span, ty, kind: ExprKind::AssignOp(op, Box::new(lhs), Box::new(rhs)) }
        },
        ExprKind::BinOp(op, lhs, rhs) => {
            let lhs = lower_expr(core, assigner, *lhs);
            let rhs = lower_expr(core, assigner, *rhs);
            Expr { id, span, ty, kind: ExprKind::BinOp(op, Box::new(lhs), Box::new(rhs)) }
        },
        ExprKind::Call(callee, arg) => {
            let callee = lower_expr(core, assigner, *callee);
            let arg = lower_expr(core, assigner, *arg);
            Expr { id, span, ty, kind: ExprKind::Call(Box::new(callee), Box::new(arg)) }
        },
        ExprKind::Index(array, index) => {
            let array = lower_expr(core, assigner, *array);
            let index = lower_expr(core, assigner, *index);
            Expr { id, span, ty, kind: ExprKind::Index(Box::new(array), Box::new(index)) }
        },
        kind => Expr { id, span, ty, kind },
    }
}

} // verus!
