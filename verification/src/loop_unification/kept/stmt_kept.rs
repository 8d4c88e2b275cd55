//! After the pass a statement holds every expression that is no
//! loop itself as often as before.

use vstd::prelude::*;
use crate::global::TermView;
use crate::hir::{StmtKindView, StmtView};
use crate::loop_unification::model::{lower_stmt, lowerable_stmt};
use crate::assigner::{NodeId, PLACEHOLDER};
use crate::loop_unification::occurrences::occ_stmt;
use crate::loop_unification::occurrences::kept_stmt;
use crate::loop_unification::kept::expr_kept::lemma_expr_kept;

verus! {

/// After the pass a statement holds every expression that is no
/// loop itself as often as before.
pub proof fn lemma_stmt_kept(id: NodeId, stmt: StmtView, next: nat, core: Seq<TermView>)
    requires
        id != NodeId(PLACEHOLDER),
        lowerable_stmt(stmt, core),
    ensures
        occ_stmt(id, lower_stmt(stmt, next, core)) == kept_stmt(id, stmt),
    decreases stmt, 0nat,
{
    match stmt.kind {
        StmtKindView::Expr(e) => lemma_expr_kept(id, e, next, core),
        StmtKindView::Item(_) => {},
        StmtKindView::Local(_, _, e) => lemma_expr_kept(id, e, next, core),
        StmtKindView::Semi(e) => lemma_expr_kept(id, e, next, core),
    }
}

} // verus!
