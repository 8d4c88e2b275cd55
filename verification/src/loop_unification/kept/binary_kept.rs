//! After the pass an expression with two operands holds every expression that is no
//! loop itself as often as before.

use vstd::prelude::*;
use crate::global::TermView;
use crate::hir::{BinOp, ExprKindView, ExprView};
use crate::loop_unification::model::{fresh_expr, lower_expr, lowerable_expr};
use crate::assigner::{NodeId, PLACEHOLDER};
use crate::loop_unification::occurrences::occ_expr;
use crate::loop_unification::occurrences::kept_expr;
use crate::loop_unification::kept::expr_kept::lemma_expr_kept;

verus! {

/// After the pass an expression with two operands holds every expression that is no
/// loop itself as often as before.
pub proof fn lemma_binary_kept(id: NodeId, e: ExprView, next: nat, core: Seq<TermView>)
    requires
        id != NodeId(PLACEHOLDER),
        lowerable_expr(e, core),
        e.kind is Assign || e.kind is AssignOp || e.kind is BinOp || e.kind is Call || e.kind is Index,
    ensures
        occ_expr(id, lower_expr(e, next, core)) == kept_expr(id, e),
    decreases e, 0nat,
{
    reveal_with_fuel(lower_expr, 1);
    reveal_with_fuel(lowerable_expr, 1);
    match e.kind {
        ExprKindView::Assign(lhs, rhs) => {
            lemma_expr_kept(id, *lhs, next, core);
            lemma_expr_kept(id, *rhs, next + fresh_expr(*lhs), core);
        },
        ExprKindView::AssignOp(_, lhs, rhs) => {
            lemma_expr_kept(id, *lhs, next, core);
            lemma_expr_kept(id, *rhs, next + fresh_expr(*lhs), core);
        },
        ExprKindView::BinOp(_, lhs, rhs) => {
            lemma_expr_kept(id, *lhs, next, core);
            lemma_expr_kept(id, *rhs, next + fresh_expr(*lhs), core);
        },
        ExprKindView::Call(callee, arg) => {
            lemma_expr_kept(id, *callee, next, core);
            lemma_expr_kept(id, *arg, next + fresh_expr(*callee), core);
        },
        ExprKindView::Index(array, index) => {
            lemma_expr_kept(id, *array, next, core);
            lemma_expr_kept(id, *index, next + fresh_expr(*array), core);
        },
        _ => {},
    }
}

} // verus!
