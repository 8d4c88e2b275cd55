//! A block that the pass adds holds the expressions of its statements.

use vstd::prelude::*;
use crate::hir::StmtView;
use crate::loop_unification::expansion::new_block_expr;
use crate::loop_unification::model::total;
use crate::span::Span;
use crate::assigner::{NodeId, PLACEHOLDER};
use crate::loop_unification::occurrences::{occ_block, occ_expr, occ_stmt_counts};

verus! {

/// A block that the pass adds holds the expressions of its statements.
pub proof fn lemma_occ_block_expr(id: NodeId, span: Span, stmts: Seq<StmtView>)
    requires
        id != NodeId(PLACEHOLDER),
    ensures
        occ_expr(id, new_block_expr(span, stmts)) == total(occ_stmt_counts(id, stmts)),
{
    let block = new_block_expr(span, stmts).kind->Block_0;
    assert(occ_block(id, block) == total(occ_stmt_counts(id, stmts)));
}

} // verus!
