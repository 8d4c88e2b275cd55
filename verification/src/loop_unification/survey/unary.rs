//! Surveys an expression with one operand.

use vstd::prelude::*;
use crate::global::Table;
use crate::hir::{Expr, ExprKind};
use crate::loop_unification::model::{fresh_expr, lowerable_expr};
use crate::loop_unification::survey::{capped, Survey};
use crate::loop_unification::survey::expr::survey_expr;

verus! {

/// Surveys an expression with one operand.
pub fn survey_unary(core: &Table, e: &Expr) -> (r: Survey)
    requires
        e@.kind is Fail || e@.kind is Field || e@.kind is Return || e@.kind is UnOp,
    ensures
        r.lowerable == lowerable_expr(e@, core@),
        r.fresh == capped(fresh_expr(e@)),
    decreases e, 0nat,
{
    reveal_with_fuel(lowerable_expr, 1);
    reveal_with_fuel(fresh_expr, 1);
    match &e.kind {
        ExprKind::Fail(message) => survey_expr(core, message),
        ExprKind::Field(record, _) => survey_expr(core, record),
        ExprKind::Return(value) => survey_expr(core, value),
        ExprKind::UnOp(_, operand) => survey_expr(core, operand),
        _ => Survey::nothing(),
    }
}

} // verus!
