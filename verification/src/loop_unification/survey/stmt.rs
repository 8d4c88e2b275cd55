//! Surveys a statement.

use vstd::prelude::*;
use crate::global::Table;
use crate::hir::{Expr, Item, Stmt, StmtKind};
use crate::loop_unification::model::{fresh_stmt, lowerable_stmt};
use crate::loop_unification::survey::{capped, Survey};
use crate::loop_unification::survey::expr::survey_expr;

verus! {

/// Surveys a statement.
pub fn survey_stmt(core: &Table, stmt: &Stmt) -> (r: Survey)
    ensures
        r.lowerable == lowerable_stmt(stmt@, core@),
        r.fresh == capped(fresh_stmt(stmt@)),
    decreases stmt, 0nat,
{
    match &stmt.kind {
        StmtKind::Expr(e) => survey_expr(core, e),
        StmtKind::Item(_) => Survey::nothing(),
        StmtKind::Local(_, _, e) => survey_expr(core, e),
        StmtKind::Semi(e) => survey_expr(core, e),
    }
}

} // verus!
