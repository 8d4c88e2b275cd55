//! In what stands in place of a `repeat` loop, every expression of the
//! loop's body, condition and fixup occurs exactly as often as there, and
//! every expression that was added carries the placeholder.

use vstd::prelude::*;
use crate::hir::{BlockView, ExprView};
use crate::loop_unification::expansion::repeat_expansion;
use crate::loop_unification::model::lemma_total_before;
use crate::span::Span;
use crate::common::template;

use crate::assigner::{NodeId, PLACEHOLDER};
use crate::loop_unification::expansion::{bool_ty, nth_id};
use crate::loop_unification::occurrences::{
    occ_block, occ_expr, occ_opt_block, occ_opt_expr, occ_stmt, occ_stmt_counts,
};
use crate::loop_unification::once::total_concat::lemma_total_concat;
use crate::loop_unification::once::total_single::lemma_total_single;
use crate::loop_unification::once::occ_local_ref::lemma_occ_local_ref;
use crate::loop_unification::once::occ_while::lemma_occ_while;
use crate::loop_unification::once::occ_block_expr::lemma_occ_block_expr;
use crate::loop_unification::once::occ_two::lemma_occ_two;

verus! {

/// In what stands in place of a `repeat` loop, every expression of the
/// loop's body, condition and fixup occurs exactly as often as there, and
/// every expression that was added carries the placeholder.
pub proof fn lemma_occ_repeat_expansion(
    id: NodeId,
    body: BlockView,
    until: ExprView,
    fixup: Option<BlockView>,
    span: Span,
    first: nat,
)
    requires
        id != NodeId(PLACEHOLDER),
    ensures
        occ_expr(id, repeat_expansion(body, until, fixup, span, first)) == occ_block(id, body)
            + occ_expr(id, until) + occ_opt_block(id, fixup),
{
    reveal(repeat_expansion);
    let expansion = repeat_expansion(body, until, fixup, span, first);
    let outer = expansion.kind->Block_0;
    let init = outer.stmts[0];
    let looping = outer.stmts[1];
    let flag = template("continue_cond"@, nth_id(first, 0), bool_ty(), until.span);
    let looped = looping.kind->Expr_0.kind->While_1;
    let update = looped.stmts[body.stmts.len() as int];
    lemma_occ_local_ref(id, flag);
    let assigned = update.kind->Semi_0;
    let negated = *assigned.kind->Assign_1;
    assert(occ_expr(id, negated) == occ_expr(id, until));
    assert(occ_expr(id, assigned) == occ_expr(id, until));
    assert(occ_stmt(id, update) == occ_expr(id, until));
    let counts = occ_stmt_counts(id, looped.stmts);
    let inner = occ_stmt_counts(id, body.stmts);
    match fixup {
        Some(fix) => {
            let guarded = looped.stmts[body.stmts.len() as int + 1];
            let conditional = guarded.kind->Expr_0;
            let then = *conditional.kind->If_1;
            assert(occ_expr(id, then) == occ_block(id, fix));
            assert(occ_opt_expr(id, conditional.kind->If_2) == 0);
            assert(occ_expr(id, *conditional.kind->If_0) == 0);
            assert(occ_expr(id, conditional) == occ_block(id, fix));
            assert(occ_stmt(id, guarded) == occ_block(id, fix));
            let tail = seq![occ_stmt(id, update), occ_stmt(id, guarded)];
            assert(counts =~= inner + tail) by {
                assert forall|i: int| 0 <= i < counts.len() implies counts[i] == (inner + tail)[i] by {
                    if i < body.stmts.len() {
                        assert(looped.stmts[i] == body.stmts[i]);
                    }
                }
            }
            lemma_total_concat(inner, tail);
            lemma_total_before(tail, 0);
            lemma_total_before(tail, 1);
            lemma_total_before(tail, 2);
        },
        None => {
            let tail = seq![occ_stmt(id, update)];
            assert(counts =~= inner + tail) by {
                assert forall|i: int| 0 <= i < counts.len() implies counts[i] == (inner + tail)[i] by {
                    if i < body.stmts.len() {
                        assert(looped.stmts[i] == body.stmts[i]);
                    }
                }
            }
            lemma_total_concat(inner, tail);
            lemma_total_single(occ_stmt(id, update));
        },
    }
    assert(occ_block(id, looped) == occ_block(id, body) + occ_expr(id, until) + occ_opt_block(
        id,
        fixup,
    ));
    lemma_occ_while(id, flag.local_ref(), looped, span);
    assert(occ_expr(id, init.kind->Local_2) == 0);
    assert(occ_stmt(id, init) == 0);
    lemma_occ_two(id, init, looping);
    assert(outer.stmts =~= seq![init, looping]);
    lemma_occ_block_expr(id, span, outer.stmts);
}

} // verus!
