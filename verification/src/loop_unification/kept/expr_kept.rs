//! After the pass an expression holds every expression that is no loop
//! itself as often as before: none is dropped and none is copied, and every
//! expression that the pass adds carries the placeholder.

use vstd::prelude::*;
use crate::global::TermView;
use crate::hir::{BinOp, ExprKindView, ExprView};
use crate::loop_unification::model::{lower_expr, lowerable_expr};
use crate::assigner::{NodeId, PLACEHOLDER};
use crate::loop_unification::occurrences::occ_expr;
use crate::loop_unification::occurrences::kept_expr;
use crate::loop_unification::kept::unary_kept::lemma_unary_kept;
use crate::loop_unification::kept::binary_kept::lemma_binary_kept;
use crate::loop_unification::kept::listed_kept::lemma_listed_kept;
use crate::loop_unification::kept::branching_kept::lemma_branching_kept;
use crate::loop_unification::kept::blocked_kept::lemma_blocked_kept;
use crate::loop_unification::kept::for_loop_kept::lemma_for_loop_kept;
use crate::loop_unification::kept::repeat_loop_kept::lemma_repeat_loop_kept;

verus! {

/// After the pass an expression holds every expression that is no loop
/// itself as often as before: none is dropped and none is copied, and every
/// expression that the pass adds carries the placeholder.
pub proof fn lemma_expr_kept(id: NodeId, e: ExprView, next: nat, core: Seq<TermView>)
    requires
        id != NodeId(PLACEHOLDER),
        lowerable_expr(e, core),
    ensures
        occ_expr(id, lower_expr(e, next, core)) == kept_expr(id, e),
    decreases e, 1nat,
{
    match e.kind {
        ExprKindView::Fail(_)
        | ExprKindView::Field(_, _)
        | ExprKindView::Return(_)
        | ExprKindView::UnOp(_, _) => lemma_unary_kept(id, e, next, core),
        ExprKindView::Assign(_, _)
        | ExprKindView::AssignOp(_, _, _)
        | ExprKindView::BinOp(_, _, _)
        | ExprKindView::Call(_, _)
        | ExprKindView::Index(_, _) => lemma_binary_kept(id, e, next, core),
        ExprKindView::Array(_) | ExprKindView::Tuple(_) | ExprKindView::String(_) => {
            lemma_listed_kept(id, e, next, core)
        },
        ExprKindView::If(_, _, _) | ExprKindView::Range(_, _, _) => {
            lemma_branching_kept(id, e, next, core)
        },
        ExprKindView::Block(_) | ExprKindView::While(_, _) => lemma_blocked_kept(id, e, next, core),
        ExprKindView::For(_, _, _) => lemma_for_loop_kept(id, e, next, core),
        ExprKindView::Repeat(_, _, _) => lemma_repeat_loop_kept(id, e, next, core),
        ExprKindView::Lit(_) | ExprKindView::Var(_, _) => {
            reveal_with_fuel(lower_expr, 1);
        },
    }
}

} // verus!
