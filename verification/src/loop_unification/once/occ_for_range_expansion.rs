//! In what stands in place of a `for` loop over a range, every expression
//! of the iterable and of the body occurs exactly as often as there, and
//! every expression that was added carries the placeholder.

use vstd::prelude::*;
use crate::hir::{BinOp, BlockView, ExprView, Mutability, PatView, PrimField};
use crate::loop_unification::expansion::{
    for_range_expansion, new_range_field, new_update, range_guard, wrapped,
};
use crate::span::Span;
use crate::common::template;

use crate::assigner::{NodeId, PLACEHOLDER};
use crate::loop_unification::expansion::{int_ty, nth_id, range_ty};
use crate::loop_unification::occurrences::{occ_block, occ_expr, occ_stmt};
use crate::loop_unification::once::occ_local_ref::lemma_occ_local_ref;
use crate::loop_unification::once::occ_init::lemma_occ_init;
use crate::loop_unification::once::occ_while::lemma_occ_while;
use crate::loop_unification::once::occ_block_expr::lemma_occ_block_expr;
use crate::loop_unification::once::occ_wrapped::lemma_occ_wrapped;
use crate::loop_unification::once::occ_update::lemma_occ_update;
use crate::loop_unification::once::occ_range_field::lemma_occ_range_field;
use crate::loop_unification::once::occ_range_guard::lemma_occ_range_guard;
use crate::loop_unification::once::occ_five::lemma_occ_five;

verus! {

/// In what stands in place of a `for` loop over a range, every expression
/// of the iterable and of the body occurs exactly as often as there, and
/// every expression that was added carries the placeholder.
pub proof fn lemma_occ_for_range_expansion(
    id: NodeId,
    pat: PatView,
    iterable: ExprView,
    body: BlockView,
    span: Span,
    first: nat,
)
    requires
        id != NodeId(PLACEHOLDER),
    ensures
        occ_expr(id, for_range_expansion(pat, iterable, body, span, first)) == occ_expr(
            id,
            iterable,
        ) + occ_block(id, body),
{
    reveal(for_range_expansion);
    let expansion = for_range_expansion(pat, iterable, body, span, first);
    let outer = expansion.kind->Block_0;
    let range = template("range_id"@, nth_id(first, 0), range_ty(), iterable.span);
    let index = template("index_id"@, nth_id(first, 1), int_ty(), iterable.span);
    let step = template("step_id"@, nth_id(first, 2), int_ty(), iterable.span);
    let end = template("end_id"@, nth_id(first, 3), int_ty(), iterable.span);
    lemma_occ_init(id, range, Mutability::Immutable, iterable);
    lemma_occ_range_field(id, range, PrimField::Start);
    lemma_occ_range_field(id, range, PrimField::Step);
    lemma_occ_range_field(id, range, PrimField::End);
    lemma_occ_init(id, index, Mutability::Mutable, new_range_field(range, PrimField::Start));
    lemma_occ_init(id, step, Mutability::Immutable, new_range_field(range, PrimField::Step));
    lemma_occ_init(id, end, Mutability::Immutable, new_range_field(range, PrimField::End));
    lemma_occ_local_ref(id, index);
    lemma_occ_local_ref(id, step);
    let looping = outer.stmts[4];
    let looped = looping.kind->Expr_0.kind->While_1;
    let pat_init = looped.stmts[0];
    assert(occ_stmt(id, pat_init) == 0);
    lemma_occ_update(id, BinOp::Add, index, step.local_ref());
    let update = new_update(BinOp::Add, index, step.local_ref());
    lemma_occ_wrapped(id, body, pat_init, update);
    lemma_occ_range_guard(id, index, step, end, iterable.span);
    lemma_occ_while(
        id,
        range_guard(index, step, end, iterable.span),
        wrapped(body, pat_init, update),
        span,
    );
    lemma_occ_five(id, outer.stmts[0], outer.stmts[1], outer.stmts[2], outer.stmts[3], looping);
    assert(outer.stmts =~= seq![
        outer.stmts[0],
        outer.stmts[1],
        outer.stmts[2],
        outer.stmts[3],
        looping,
    ]);
    lemma_occ_block_expr(id, span, outer.stmts);
}

} // verus!
