//! A `while` loop that the pass adds holds the expressions of its parts.

use vstd::prelude::*;
use crate::hir::{BlockView, ExprView};
use crate::loop_unification::expansion::new_while;
use crate::span::Span;
use crate::assigner::{NodeId, PLACEHOLDER};
use crate::loop_unification::occurrences::{occ_block, occ_expr, occ_stmt};

verus! {

/// A `while` loop that the pass adds holds the expressions of its parts.
pub proof fn lemma_occ_while(id: NodeId, cond: ExprView, body: BlockView, span: Span)
    requires
        id != NodeId(PLACEHOLDER),
    ensures
        occ_stmt(id, new_while(cond, body, span)) == occ_expr(id, cond) + occ_block(id, body),
{
    let e = new_while(cond, body, span).kind->Expr_0;
    assert(occ_expr(id, e) == occ_expr(id, cond) + occ_block(id, body));
}

} // verus!
