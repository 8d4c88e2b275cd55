//! Where the parts of a `repeat` loop stand in what replaces it.

use vstd::prelude::*;
use crate::hir::{BlockView, ExprKindView, ExprView, Mutability, StmtKindView};
use crate::loop_unification::expansion::repeat_expansion;
use crate::span::Span;
use crate::common::template;

use crate::loop_unification::expansion::{bool_ty, nth_id};
use crate::hir::{Lit, UnOp};
use crate::loop_unification::expansion::{new_expr, new_stmt};
use crate::ty::unit_ty;

verus! {

/// Where the parts of a `repeat` loop stand in what replaces it.
///
/// The block that replaces the loop holds two statements: the declaration
/// of the flag, which starts out true, and the `while` loop over the flag.
/// The `while` loop's body is the loop's body, then the assignment of the
/// negated condition to the flag, which is the one place where the
/// condition stands, and then, where there is a fixup, a conditional on the
/// flag that holds the fixup as its only branch, and nothing else.
pub proof fn lemma_repeat_expansion_shape(
    body: BlockView,
    until: ExprView,
    fixup: Option<BlockView>,
    span: Span,
    first: nat,
)
    ensures
        ({
            let flag = template("continue_cond"@, nth_id(first, 0), bool_ty(), until.span);
            let expansion = repeat_expansion(body, until, fixup, span, first);
            let outer = expansion.kind->Block_0;
            let looping = outer.stmts[1].kind->Expr_0;
            let looped = looping.kind->While_1;
            let count = body.stmts.len() as int;
            &&& expansion.kind is Block
            &&& expansion.span == span
            &&& outer.stmts.len() == 2
            &&& outer.stmts[0] == flag.init(
                Mutability::Mutable,
                new_expr(until.span, bool_ty(), ExprKindView::Lit(Lit::Bool(true))),
            )
            &&& outer.stmts[1].kind is Expr
            &&& looping.kind is While
            &&& *looping.kind->While_0 == flag.local_ref()
            &&& looped.id == body.id
            &&& looped.span == body.span
            &&& looped.stmts.len() == count + if fixup is Some {
                2int
            } else {
                1int
            }
            &&& looped.stmts.subrange(0, count) == body.stmts
            &&& looped.stmts[count] == new_stmt(
                until.span,
                StmtKindView::Semi(
                    new_expr(
                        until.span,
                        unit_ty(),
                        ExprKindView::Assign(
                            Box::new(flag.local_ref()),
                            Box::new(
                                new_expr(
                                    until.span,
                                    bool_ty(),
                                    ExprKindView::UnOp(UnOp::NotL, Box::new(until)),
                                ),
                            ),
                        ),
                    ),
                ),
            )
            &&& fixup matches Some(fix) ==> looped.stmts[count + 1] == new_stmt(
                fix.span,
                StmtKindView::Expr(
                    new_expr(
                        fix.span,
                        unit_ty(),
                        ExprKindView::If(
                            Box::new(flag.local_ref()),
                            Box::new(new_expr(fix.span, unit_ty(), ExprKindView::Block(fix))),
                            None,
                        ),
                    ),
                ),
            )
        }),
{
    reveal(repeat_expansion);
    let expansion = repeat_expansion(body, until, fixup, span, first);
    let looped = expansion.kind->Block_0.stmts[1].kind->Expr_0.kind->While_1;
    assert(looped.stmts.subrange(0, body.stmts.len() as int) =~= body.stmts);
}

} // verus!
