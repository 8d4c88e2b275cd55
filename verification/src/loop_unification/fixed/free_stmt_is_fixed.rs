//! The pass leaves a statement without `for` and `repeat` loops as it is.

use vstd::prelude::*;
use crate::global::TermView;
use crate::hir::{StmtKindView, StmtView};
use crate::loop_unification::model::{fresh_stmt, lower_stmt, lowerable_stmt};
use crate::loop_unification::primitive::sugar_free_stmt;

use crate::loop_unification::fixed::free_expr_is_fixed::lemma_free_expr_is_fixed;

verus! {

/// The pass leaves a statement without `for` and `repeat` loops as it is.
pub proof fn lemma_free_stmt_is_fixed(stmt: StmtView, next: nat, core: Seq<TermView>)
    requires
        sugar_free_stmt(stmt),
    ensures
        lowerable_stmt(stmt, core),
        fresh_stmt(stmt) == 0,
        lower_stmt(stmt, next, core) == stmt,
    decreases stmt,
{
    match stmt.kind {
        StmtKindView::Expr(e) => lemma_free_expr_is_fixed(e, next, core),
        StmtKindView::Item(_) => {},
        StmtKindView::Local(_, _, e) => lemma_free_expr_is_fixed(e, next, core),
        StmtKindView::Semi(e) => lemma_free_expr_is_fixed(e, next, core),
    }
}

} // verus!
