//! The walk over expressions with one operand.

use vstd::prelude::*;
use crate::assigner::{Assigner, PLACEHOLDER};
use crate::global::Table;
use crate::hir::{Expr, ExprKind, Field, UnOp};
use crate::loop_unification::model;
use crate::loop_unification::model::{fresh_expr, lowerable_expr};
use crate::loop_unification::walk::expr::lower_expr;

verus! {

/// Lowers every loop in the operand of `e`.
///
/// `e` is a failure, a field access, a return or a unary operator.
pub fn lower_unary(core: &Table, assigner: &mut Assigner, e: Expr) -> (r: Expr)
    requires
        e@.kind is Fail || e@.kind is Field || e@.kind is Return || e@.kind is UnOp,
        lowerable_expr(e@, core@),
        old(assigner)@ + fresh_expr(e@) <= PLACEHOLDER,
    ensures
        r@ == model::lower_expr(e@, old(assigner)@, core@),
        final(assigner)@ == old(assigner)@ + fresh_expr(e@),
    decreases e, 0nat,
{
    reveal_with_fuel(model::lower_expr, 1);
    reveal_with_fuel(lowerable_expr, 1);
    reveal_with_fuel(fresh_expr, 1);
    let Expr { id, span, ty, kind } = e;
    match kind {
        ExprKind::Fail(message) => {
            let message = lower_expr(core, assigner, *message);
            Expr { id, span, ty, kind: ExprKind::Fail(Box::new(message)) }
        },
        ExprKind::Field(record, field) => {
            let record = lower_expr(core, assigner, *record);
            Expr { id, span, ty, kind: ExprKind::Field(Box::new(record), field) }
        },
        ExprKind::Return(value) => {
            let value = lower_expr(core, assigner, *value);
            Expr { id, span, ty, kind: ExprKind::Return(Box::new(value)) }
        },
        ExprKind::UnOp(op, operand) => {
            let operand = lower_expr(core, assigner, *operand);
            Expr { id, span, ty, kind: ExprKind::UnOp(op, Box::new(operand)) }
        },
        kind => Expr { id, span, ty, kind },
    }
}

} // verus!
