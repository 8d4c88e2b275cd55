//! The added locals of a statement that lie in a range lie in
//! every wider one.

use vstd::prelude::*;
use crate::hir::{StmtKindView, StmtView};
use crate::loop_unification::added::added_within_stmt;
use crate::loop_unification::widening::expr_widens::lemma_expr_widens;

verus! {

/// The added locals of a statement that lie in a range lie in
/// every wider one.
pub proof fn lemma_stmt_widens(stmt: StmtView, lo: nat, hi: nat, wide_lo: nat, wide_hi: nat)
    requires
        added_within_stmt(stmt, lo, hi),
        (wide_lo <= lo && hi <= wide_hi) || lo >= hi,
    ensures
        added_within_stmt(stmt, wide_lo, wide_hi),
    decreases stmt,
{
    match stmt.kind {
        StmtKindView::Expr(e) => lemma_expr_widens(e, lo, hi, wide_lo, wide_hi),
        StmtKindView::Item(_) => {},
        StmtKindView::Local(_, _, e) => lemma_expr_widens(e, lo, hi, wide_lo, wide_hi),
        StmtKindView::Semi(e) => lemma_expr_widens(e, lo, hi, wide_lo, wide_hi),
    }
}

} // verus!
