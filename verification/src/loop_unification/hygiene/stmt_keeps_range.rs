//! The locals that the pass adds to a statement have
//! identities that the pass drew.

use vstd::prelude::*;
use crate::global::TermView;
use crate::hir::{StmtKindView, StmtView};
use crate::loop_unification::model::{fresh_stmt, lower_stmt, lowerable_stmt};
use crate::assigner::PLACEHOLDER;
use crate::loop_unification::added::added_within_stmt;
use crate::loop_unification::hygiene::expr_keeps_range::lemma_expr_keeps_range;

verus! {

/// The locals that the pass adds to a statement have
/// identities that the pass drew.
pub proof fn lemma_stmt_keeps_range(stmt: StmtView, next: nat, core: Seq<TermView>, lo: nat, hi: nat)
    requires
        lowerable_stmt(stmt, core),
        added_within_stmt(stmt, lo, hi),
        lo <= next,
        next + fresh_stmt(stmt) <= hi,
        hi <= PLACEHOLDER,
    ensures
        added_within_stmt(lower_stmt(stmt, next, core), lo, hi),
    decreases stmt, 0nat,
{
    match stmt.kind {
        StmtKindView::Expr(e) => lemma_expr_keeps_range(e, next, core, lo, hi),
        StmtKindView::Item(_) => {},
        StmtKindView::Local(_, _, e) => lemma_expr_keeps_range(e, next, core, lo, hi),
        StmtKindView::Semi(e) => lemma_expr_keeps_range(e, next, core, lo, hi),
    }
}

} // verus!
