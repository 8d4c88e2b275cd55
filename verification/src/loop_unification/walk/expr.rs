//! The walk over expressions.

use vstd::prelude::*;
use crate::assigner::{Assigner, PLACEHOLDER};
use crate::global::Table;
use crate::hir::{BinOp, Block, Expr, ExprKind, Field, Lit, UnOp};
use crate::loop_unification::model;
use crate::loop_unification::model::{fresh_expr, lowerable_expr};
use crate::loop_unification::walk::unary::lower_unary;
use crate::loop_unification::walk::binary::lower_binary;
use crate::loop_unification::walk::listed::lower_listed;
use crate::loop_unification::walk::branching::lower_branching;
use crate::loop_unification::walk::blocked::lower_blocked;
use crate::loop_unification::walk::for_loop::lower_for;
use crate::loop_unification::walk::repeat_loop::lower_repeat_loop;

verus! {

/// Lowers every loop in `e`, the innermost first.
pub fn lower_expr(core: &Table, assigner: &mut Assigner, e: Expr) -> (r: Expr)
    requires
        lowerable_expr(e@, core@),
        old(assigner)@ + fresh_expr(e@) <= PLACEHOLDER,
    ensures
        r@ == model::lower_expr(e@, old(assigner)@, core@),
        final(assigner)@ == old(assigner)@ + fresh_expr(e@),
    decreases e, 1nat,
{
    match &e.kind {
        ExprKind::Fail(_) | ExprKind::Field(_, _) | ExprKind::Return(_) | ExprKind::UnOp(_, _) => {
            lower_unary(core, assigner, e)
        },
        ExprKind::Assign(_, _)
        | ExprKind::AssignOp(_, _, _)
        | ExprKind::BinOp(_, _, _)
        | ExprKind::Call(_, _)
        | ExprKind::Index(_, _) => lower_binary(core, assigner, e),
        ExprKind::Array(_) | ExprKind::Tuple(_) | ExprKind::String(_) => {
            lower_listed(core, assigner, e)
        },
        ExprKind::If(_, _, _) | ExprKind::Range(_, _, _) => lower_branching(core, assigner, e),
        ExprKind::Block(_) | ExprKind::While(_, _) => lower_blocked(core, assigner, e),
        ExprKind::For(_, _, _) => lower_for(core, assigner, e),
        ExprKind::Repeat(_, _, _) => lower_repeat_loop(core, assigner, e),
        ExprKind::Lit(_) | ExprKind::Var(_, _) => {
            proof {
                reveal_with_fuel(model::lower_expr, 1);
                reveal_with_fuel(fresh_expr, 1);
            }
            e
        },
    }
}

} // verus!
