//! After the pass a block or a `while` loop holds every expression that is no
//! loop itself as often as before.

use vstd::prelude::*;
use crate::global::TermView;
use crate::hir::{ExprKindView, ExprView};
use crate::loop_unification::model::{fresh_expr, lower_expr, lowerable_expr};
use crate::assigner::{NodeId, PLACEHOLDER};
use crate::loop_unification::occurrences::occ_expr;
use crate::loop_unification::occurrences::kept_expr;
use crate::loop_unification::kept::expr_kept::lemma_expr_kept;
use crate::loop_unification::kept::block_kept::lemma_block_kept;

verus! {

/// After the pass a block or a `while` loop holds every expression that is no
/// loop itself as often as before.
pub proof fn lemma_blocked_kept(id: NodeId, e: ExprView, next: nat, core: Seq<TermView>)
    requires
        id != NodeId(PLACEHOLDER),
        lowerable_expr(e, core),
        e.kind is Block || e.kind is While,
    ensures
        occ_expr(id, lower_expr(e, next, core)) == kept_expr(id, e),
    decreases e, 0nat,
{
    reveal_with_fuel(lower_expr, 1);
    reveal_with_fuel(lowerable_expr, 1);
    match e.kind {
        ExprKindView::Block(block) => {
            lemma_block_kept(id, block, next, core);
        },
        ExprKindView::While(cond, body) => {
            lemma_expr_kept(id, *cond, next, core);
            lemma_block_kept(id, body, next + fresh_expr(*cond), core);
        },
        _ => {},
    }
}

} // verus!
