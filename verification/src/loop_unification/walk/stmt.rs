//! The walk over statements.

use vstd::prelude::*;
use crate::assigner::{Assigner, PLACEHOLDER};
use crate::global::Table;
use crate::hir::{Expr, Stmt, StmtKind};
use crate::loop_unification::model;
use crate::loop_unification::model::{fresh_stmt, lowerable_stmt};
use crate::loop_unification::walk::expr::lower_expr;

verus! {

/// Lowers every loop in a statement.
pub fn lower_stmt(core: &Table, assigner: &mut Assigner, stmt: Stmt) -> (r: Stmt)
    requires
        lowerable_stmt(stmt@, core@),
        old(assigner)@ + fresh_stmt(stmt@) <= PLACEHOLDER,
    ensures
        r@ == model::lower_stmt(stmt@, old(assigner)@, core@),
        final(assigner)@ == old(assigner)@ + fresh_stmt(stmt@),
    decreases stmt, 0nat,
{
    let Stmt { id, span, kind } = stmt;
    match kind {
        StmtKind::Expr(e) => Stmt { id, span, kind: StmtKind::Expr(lower_expr(core, assigner, e)) },
        StmtKind::Item(item) => Stmt { id, span, kind: StmtKind::Item(item) },
        StmtKind::Local(mutability, pat, e) => Stmt {
            id,
            span,
            kind: StmtKind::Local(mutability, pat, lower_expr(core, assigner, e)),
        },
        StmtKind::Semi(e) => Stmt { id, span, kind: StmtKind::Semi(lower_expr(core, assigner, e)) },
    }
}

} // verus!
