//! What stands in place of a `repeat` loop holds no `for` and no `repeat`
//! loop if the loop's parts hold none.

use vstd::prelude::*;
use crate::hir::{BlockView, ExprView};
use crate::loop_unification::expansion::repeat_expansion;
use crate::span::Span;
use crate::common::template;

use crate::assigner::PLACEHOLDER;
use crate::loop_unification::added::{
    added_within_block, added_within_expr, added_within_opt_block, added_within_opt_expr,
    added_within_stmt,
};
use crate::loop_unification::expansion::{bool_ty, nth_id};
use crate::loop_unification::fresh_locals::local_ref_added::lemma_local_ref_added;
use crate::loop_unification::fresh_locals::while_added::lemma_while_added;
use crate::loop_unification::fresh_locals::block_expr_added::lemma_block_expr_added;

verus! {

/// What stands in place of a `repeat` loop holds no `for` and no `repeat`
/// loop if the loop's parts hold none.
pub proof fn lemma_repeat_expansion_added(
    body: BlockView,
    until: ExprView,
    fixup: Option<BlockView>,
    span: Span,
    first: nat,
    lo: nat,
    hi: nat,
)
    requires
        added_within_block(body, lo, hi),
        added_within_expr(until, lo, hi),
        added_within_opt_block(fixup, lo, hi),
        lo <= first,
        first + 1 <= hi,
        hi <= PLACEHOLDER,
    ensures
        added_within_expr(repeat_expansion(body, until, fixup, span, first), lo, hi),
{
    reveal(repeat_expansion);
    let expansion = repeat_expansion(body, until, fixup, span, first);
    let outer = expansion.kind->Block_0;
    let init = outer.stmts[0];
    let looping = outer.stmts[1];
    let flag = template("continue_cond"@, nth_id(first, 0), bool_ty(), until.span);
    let looped = looping.kind->Expr_0.kind->While_1;
    let update = looped.stmts[body.stmts.len() as int];
    lemma_local_ref_added(flag, lo, hi);
    let negated = update.kind->Semi_0.kind->Assign_1;
    assert(added_within_expr(*negated, lo, hi));
    assert(added_within_expr(update.kind->Semi_0, lo, hi));
    assert(added_within_stmt(update, lo, hi));
    if fixup is Some {
        let guarded = looped.stmts[body.stmts.len() as int + 1];
        let conditional = guarded.kind->Expr_0;
        let then = conditional.kind->If_1;
        assert(added_within_block(then.kind->Block_0, lo, hi));
        assert(added_within_expr(*then, lo, hi));
        assert(added_within_expr(*conditional.kind->If_0, lo, hi));
        assert(added_within_opt_expr(conditional.kind->If_2, lo, hi));
        assert(added_within_expr(conditional, lo, hi));
        assert(added_within_stmt(guarded, lo, hi));
    }
    assert forall|i: int| 0 <= i < looped.stmts.len() implies added_within_stmt(
        #[trigger] looped.stmts[i], lo, hi) by {
        if i < body.stmts.len() {
            assert(looped.stmts[i] == body.stmts[i]);
        }
    }
    assert(added_within_block(looped, lo, hi));
    lemma_while_added(flag.local_ref(), looped, span, lo, hi);
    assert(added_within_expr(init.kind->Local_2, lo, hi));
    assert(added_within_stmt(init, lo, hi));
    assert forall|i: int| 0 <= i < outer.stmts.len() implies added_within_stmt(
        #[trigger] outer.stmts[i], lo, hi) by {}
    lemma_block_expr_added(span, outer.stmts, lo, hi);
}

} // verus!
