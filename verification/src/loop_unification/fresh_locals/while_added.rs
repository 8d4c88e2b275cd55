//! A `while` loop holds no `for` or `repeat` loop if its parts hold none.

use vstd::prelude::*;
use crate::hir::{BlockView, ExprView};
use crate::loop_unification::expansion::new_while;
use crate::span::Span;
use crate::loop_unification::added::{added_within_block, added_within_expr, added_within_stmt};

verus! {

/// A `while` loop holds no `for` or `repeat` loop if its parts hold none.
pub proof fn lemma_while_added(cond: ExprView, body: BlockView, span: Span, lo: nat, hi: nat)
    requires
        added_within_expr(cond, lo, hi),
        added_within_block(body, lo, hi),
    ensures
        added_within_stmt(new_while(cond, body, span), lo, hi),
{
    let e = new_while(cond, body, span).kind->Expr_0;
    assert(added_within_expr(e, lo, hi));
}

} // verus!
