//! Tells whether the pass can be asked to lower `e`, and how many identities
//! it would draw.

use vstd::prelude::*;
use crate::global::Table;
use crate::hir::{Block, Expr, ExprKind};
use crate::loop_unification::model::{fresh_expr, lowerable_expr};
use crate::loop_unification::survey::{capped, Survey};
use crate::loop_unification::survey::unary::survey_unary;
use crate::loop_unification::survey::binary::survey_binary;
use crate::loop_unification::survey::listed::survey_listed;
use crate::loop_unification::survey::branching::survey_branching;
use crate::loop_unification::survey::blocked::survey_blocked;
use crate::loop_unification::survey::for_loop::survey_for;
use crate::loop_unification::survey::repeat_loop::survey_repeat;

verus! {

/// Tells whether the pass can be asked to lower `e`, and how many identities
/// it would draw.
pub fn survey_expr(core: &Table, e: &Expr) -> (r: Survey)
    ensures
        r.lowerable == lowerable_expr(e@, core@),
        r.fresh == capped(fresh_expr(e@)),
    decreases e, 1nat,
{
    match &e.kind {
        ExprKind::Fail(_) | ExprKind::Field(_, _) | ExprKind::Return(_) | ExprKind::UnOp(_, _) => {
            survey_unary(core, e)
        },
        ExprKind::Assign(_, _)
        | ExprKind::AssignOp(_, _, _)
        | ExprKind::BinOp(_, _, _)
        | ExprKind::Call(_, _)
        | ExprKind::Index(_, _) => survey_binary(core, e),
        ExprKind::Array(_) | ExprKind::Tuple(_) | ExprKind::String(_) => survey_listed(core, e),
        ExprKind::If(_, _, _) | ExprKind::Range(_, _, _) => survey_branching(core, e),
        ExprKind::Block(_) | ExprKind::While(_, _) => survey_blocked(core, e),
        ExprKind::For(_, _, _) => survey_for(core, e),
        ExprKind::Repeat(_, _, _) => survey_repeat(core, e),
        ExprKind::Lit(_) | ExprKind::Var(_, _) => {
            proof {
                reveal_with_fuel(lowerable_expr, 1);
                reveal_with_fuel(fresh_expr, 1);
            }
            Survey::nothing()
        },
    }
}

} // verus!
