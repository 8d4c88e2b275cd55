//! After the pass an expression with one operand holds every expression that is no
//! loop itself as often as before.

use vstd::prelude::*;
use crate::global::TermView;
use crate::hir::{ExprKindView, ExprView};
use crate::loop_unification::model::{lower_expr, lowerable_expr};
use crate::assigner::{NodeId, PLACEHOLDER};
use crate::loop_unification::occurrences::occ_expr;
use crate::loop_unification::occurrences::kept_expr;
use crate::loop_unification::kept::expr_kept::lemma_expr_kept;

verus! {

/// After the pass an expression with one operand holds every expression that is no
/// loop itself as often as before.
pub proof fn lemma_unary_kept(id: NodeId, e: ExprView, next: nat, core: Seq<TermView>)
    requires
        id != NodeId(PLACEHOLDER),
        lowerable_expr(e, core),
        e.kind is Fail || e.kind is Field || e.kind is Return || e.kind is UnOp,
    ensures
        occ_expr(id, lower_expr(e, next, core)) == kept_expr(id, e),
    decreases e, 0nat,
{
    reveal_with_fuel(lower_expr, 1);
    reveal_with_fuel(lowerable_expr, 1);
    match e.kind {
        ExprKindView::Fail(message) => {
            lemma_expr_kept(id, *message, next, core);
        },
        ExprKindView::Field(record, _) => {
            lemma_expr_kept(id, *record, next, core);
        },
        ExprKindView::Return(value) => {
            lemma_expr_kept(id, *value, next, core);
        },
        ExprKindView::UnOp(_, operand) => {
            lemma_expr_kept(id, *operand, next, core);
        },
        _ => {},
    }
}

} // verus!
