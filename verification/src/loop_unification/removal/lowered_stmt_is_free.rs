//! After the pass a statement holds no `for` and no `repeat` loop.

use vstd::prelude::*;
use crate::global::TermView;
use crate::hir::{StmtKindView, StmtView};
use crate::loop_unification::model::{lower_stmt, lowerable_stmt};
use crate::loop_unification::primitive::sugar_free_stmt;

use crate::loop_unification::removal::lowered_expr_is_free::lemma_lowered_expr_is_free;

verus! {

/// After the pass a statement holds no `for` and no `repeat` loop.
pub proof fn lemma_lowered_stmt_is_free(stmt: StmtView, next: nat, core: Seq<TermView>)
    requires
        lowerable_stmt(stmt, core),
    ensures
        sugar_free_stmt(lower_stmt(stmt, next, core)),
    decreases stmt,
{
    match stmt.kind {
        StmtKindView::Expr(e) => lemma_lowered_expr_is_free(e, next, core),
        StmtKindView::Item(_) => {},
        StmtKindView::Local(_, _, e) => lemma_lowered_expr_is_free(e, next, core),
        StmtKindView::Semi(e) => lemma_lowered_expr_is_free(e, next, core),
    }
}

} // verus!
