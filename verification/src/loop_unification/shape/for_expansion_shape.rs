//! Where the parts of a `for` loop stand in what replaces it.

use vstd::prelude::*;
use crate::global::TermView;
use crate::hir::{BlockView, ExprView, Mutability, PatView};
use crate::loop_unification::expansion::{for_array_expansion, for_range_expansion, range_guard};
use crate::span::Span;
use crate::common::template;

use crate::loop_unification::expansion::{int_ty, nth_id, range_ty};

verus! {

/// Where the parts of a `for` loop stand in what replaces it.
///
/// The block that replaces the loop starts with the declaration of a fresh
/// local whose value is the iterable, which is the one place where the
/// iterable stands; it ends with the `while` loop. The `while` loop's body
/// starts with the one statement that binds the loop's pattern, goes on with
/// the loop's body, and ends with the one statement that moves the index.
pub proof fn lemma_for_expansion_shape(
    pat: PatView,
    iterable: ExprView,
    body: BlockView,
    span: Span,
    first: nat,
    core: Seq<TermView>,
)
    ensures
        ({
            let over_array = for_array_expansion(pat, iterable, body, span, first, core);
            let over_range = for_range_expansion(pat, iterable, body, span, first);
            let array = template("array_id"@, nth_id(first, 0), iterable.ty, iterable.span);
            let range = template("range_id"@, nth_id(first, 0), range_ty(), iterable.span);
            let array_loop = over_array.kind->Block_0.stmts[3].kind->Expr_0;
            let range_loop = over_range.kind->Block_0.stmts[4].kind->Expr_0;
            let count = body.stmts.len() as int;
            &&& over_array.kind is Block
            &&& over_array.span == span
            &&& over_array.kind->Block_0.stmts.len() == 4
            &&& over_array.kind->Block_0.stmts[0] == array.init(Mutability::Immutable, iterable)
            &&& array_loop.kind is While
            &&& array_loop.kind->While_1.stmts.len() == count + 2
            &&& array_loop.kind->While_1.stmts[0].kind is Local
            &&& array_loop.kind->While_1.stmts[0].kind->Local_1 == pat
            &&& array_loop.kind->While_1.stmts[0].kind->Local_2.kind is Index
            &&& array_loop.kind->While_1.stmts.subrange(1, count + 1) == body.stmts
            &&& over_range.kind is Block
            &&& over_range.span == span
            &&& over_range.kind->Block_0.stmts.len() == 5
            &&& over_range.kind->Block_0.stmts[0] == range.init(Mutability::Immutable, iterable)
            &&& range_loop.kind is While
            &&& *range_loop.kind->While_0 == range_guard(
                template("index_id"@, nth_id(first, 1), int_ty(), iterable.span),
                template("step_id"@, nth_id(first, 2), int_ty(), iterable.span),
                template("end_id"@, nth_id(first, 3), int_ty(), iterable.span),
                iterable.span,
            )
            &&& range_loop.kind->While_1.stmts.len() == count + 2
            &&& range_loop.kind->While_1.stmts[0].kind is Local
            &&& range_loop.kind->While_1.stmts[0].kind->Local_1 == pat
            &&& range_loop.kind->While_1.stmts[0].kind->Local_2.kind is Var
            &&& range_loop.kind->While_1.stmts.subrange(1, count + 1) == body.stmts
        }),
{
    reveal(for_array_expansion);
    reveal(for_range_expansion);
    let over_array = for_array_expansion(pat, iterable, body, span, first, core);
    let over_range = for_range_expansion(pat, iterable, body, span, first);
    let array_body = over_array.kind->Block_0.stmts[3].kind->Expr_0.kind->While_1;
    let range_body = over_range.kind->Block_0.stmts[4].kind->Expr_0.kind->While_1;
    assert(array_body.stmts.subrange(1, body.stmts.len() as int + 1) =~= body.stmts);
    assert(range_body.stmts.subrange(1, body.stmts.len() as int + 1) =~= body.stmts);
}

} // verus!
