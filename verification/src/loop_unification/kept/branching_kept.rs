//! After the pass a conditional or a range holds every expression that is no
//! loop itself as often as before.

use vstd::prelude::*;
use crate::global::TermView;
use crate::hir::{ExprKindView, ExprView};
use crate::loop_unification::model::{fresh_expr, fresh_opt_expr, lower_expr, lowerable_expr};
use crate::assigner::{NodeId, PLACEHOLDER};
use crate::loop_unification::occurrences::occ_expr;
use crate::loop_unification::occurrences::kept_expr;
use crate::loop_unification::kept::expr_kept::lemma_expr_kept;
use crate::loop_unification::kept::opt_expr_kept::lemma_opt_expr_kept;

verus! {

/// After the pass a conditional or a range holds every expression that is no
/// loop itself as often as before.
pub proof fn lemma_branching_kept(id: NodeId, e: ExprView, next: nat, core: Seq<TermView>)
    requires
        id != NodeId(PLACEHOLDER),
        lowerable_expr(e, core),
        e.kind is If || e.kind is Range,
    ensures
        occ_expr(id, lower_expr(e, next, core)) == kept_expr(id, e),
    decreases e, 0nat,
{
    reveal_with_fuel(lower_expr, 1);
    reveal_with_fuel(lowerable_expr, 1);
    match e.kind {
        ExprKindView::If(cond, body, otherwise) => {
            lemma_expr_kept(id, *cond, next, core);
            lemma_expr_kept(id, *body, next + fresh_expr(*cond), core);
            lemma_opt_expr_kept(id, 
                otherwise,
                next + fresh_expr(*cond) + fresh_expr(*body),
                core,
            );
        },
        ExprKindView::Range(start, step, end) => {
            lemma_opt_expr_kept(id, start, next, core);
            lemma_opt_expr_kept(id, step, next + fresh_opt_expr(start), core);
            lemma_opt_expr_kept(id, 
                end,
                next + fresh_opt_expr(start) + fresh_opt_expr(step),
                core,
            );
        },
        _ => {},
    }
}

} // verus!
