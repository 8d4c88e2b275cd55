//! What each kind of loop is replaced by.
//!
//! The three functions here take the parts of a loop, already lowered, and
//! the first identity that is free, and give the expression that stands in
//! the loop's place. Every node they add carries the placeholder identity,
//! except the names of the fresh locals.

use vstd::prelude::*;
use crate::assigner::{NodeId, PLACEHOLDER};
use crate::common::{core_ref, template, IdentTemplateView};
use crate::global::TermView;
use crate::hir::{
    BinOp, BlockView, ExprKindView, ExprView, FieldView, Lit, Mutability, PatView, PrimField,
    StmtKindView, StmtView, UnOp,
};
use crate::span::Span;
use crate::ty::{unit_ty, GenericArgView, Prim, TyView};

verus! {

/// The type of Boolean values.
pub open spec fn bool_ty() -> TyView {
    TyView::Prim(Prim::Bool)
}

/// The type of integers.
pub open spec fn int_ty() -> TyView {
    TyView::Prim(Prim::Int)
}

/// The type of ranges.
pub open spec fn range_ty() -> TyView {
    TyView::Prim(Prim::Range)
}

/// An expression that a pass adds.
pub open spec fn new_expr(span: Span, ty: TyView, kind: ExprKindView) -> ExprView {
    ExprView { id: NodeId(PLACEHOLDER), span, ty, kind }
}

/// A statement that a pass adds.
pub open spec fn new_stmt(span: Span, kind: StmtKindView) -> StmtView {
    StmtView { id: NodeId(PLACEHOLDER), span, kind }
}

/// A block of unit type that a pass adds, as an expression.
pub open spec fn new_block_expr(span: Span, stmts: Seq<StmtView>) -> ExprView {
    new_expr(
        span,
        unit_ty(),
        ExprKindView::Block(BlockView { id: NodeId(PLACEHOLDER), span, ty: unit_ty(), stmts }),
    )
}

/// A binary operator applied to two operands.
pub open spec fn new_bin_op(op: BinOp, lhs: ExprView, rhs: ExprView, ty: TyView, span: Span) -> ExprView {
    new_expr(span, ty, ExprKindView::BinOp(op, Box::new(lhs), Box::new(rhs)))
}

/// The statement `local op= rhs;`.
pub open spec fn new_update(op: BinOp, local: IdentTemplateView, rhs: ExprView) -> StmtView {
    new_stmt(
        local.span,
        StmtKindView::Semi(
            new_expr(
                local.span,
                unit_ty(),
                ExprKindView::AssignOp(op, Box::new(local.local_ref()), Box::new(rhs)),
            ),
        ),
    )
}

/// The statement that runs `body` while `cond` holds.
pub open spec fn new_while(cond: ExprView, body: BlockView, span: Span) -> StmtView {
    new_stmt(
        span,
        StmtKindView::Expr(new_expr(span, unit_ty(), ExprKindView::While(Box::new(cond), body))),
    )
}

/// The field of a range that `field` names.
pub open spec fn new_range_field(range: IdentTemplateView, field: PrimField) -> ExprView {
    new_expr(
        range.span,
        int_ty(),
        ExprKindView::Field(Box::new(range.local_ref()), FieldView::Prim(field)),
    )
}

/// The identity `offset` places after `first`.
pub open spec fn nth_id(first: nat, offset: nat) -> NodeId {
    NodeId((first + offset) as u32)
}

/// The namespace of the core library's array length.
pub open spec fn length_namespace() -> Seq<char> {
    "Microsoft.Quantum.Core"@
}

/// The name of the core library's array length.
pub open spec fn length_name() -> Seq<char> {
    "Length"@
}

/// The reference to the core library's array length for arrays of `item`,
/// where the table resolves it and its scheme takes one type.
pub open spec fn length_callee(core: Seq<TermView>, item: TyView, span: Span) -> Option<ExprView> {
    core_ref(core, length_namespace(), length_name(), seq![GenericArgView::Ty(item)], span)
}

/// The item type of an array type.
pub open spec fn array_item(ty: TyView) -> TyView {
    match ty {
        TyView::Array(item) => *item,
        _ => TyView::Invalid,
    }
}

/// `body` with one statement before its own and one after them.
pub open spec fn wrapped(body: BlockView, first: StmtView, last: StmtView) -> BlockView {
    BlockView {
        id: body.id,
        span: body.span,
        ty: body.ty,
        stmts: seq![first] + body.stmts + seq![last],
    }
}

/// The statement that binds `len` to the length of `array`, which `callee`
/// computes.
pub open spec fn array_len_init(
    array: IdentTemplateView,
    len: IdentTemplateView,
    callee: ExprView,
) -> StmtView {
    len.init(
        Mutability::Immutable,
        new_expr(
            array.span,
            array.ty,
            ExprKindView::Call(Box::new(callee), Box::new(array.local_ref())),
        ),
    )
}

/// The statement that binds `pat` to the item of `array` at `index`.
pub open spec fn array_item_init(
    pat: PatView,
    array: IdentTemplateView,
    index: IdentTemplateView,
    item: TyView,
    span: Span,
) -> StmtView {
    new_stmt(
        span,
        StmtKindView::Local(
            Mutability::Immutable,
            pat,
            new_expr(
                array.span,
                item,
                ExprKindView::Index(Box::new(array.local_ref()), Box::new(index.local_ref())),
            ),
        ),
    )
}

/// What stands in place of `repeat body until until fixup fixup`.
///
/// A fresh mutable flag starts out true; the loop runs while it holds. After
/// the body the flag becomes the negation of `until`, and the fixup, where
/// there is one, runs only if the flag still holds.
#[verifier::opaque]
pub open spec fn repeat_expansion(
    body: BlockView,
    until: ExprView,
    fixup: Option<BlockView>,
    span: Span,
    first: nat,
) -> ExprView {
    let flag = template("continue_cond"@, nth_id(first, 0), bool_ty(), until.span);
    let init = flag.init(
        Mutability::Mutable,
        new_expr(until.span, bool_ty(), ExprKindView::Lit(Lit::Bool(true))),
    );
    let update = new_stmt(
        until.span,
        StmtKindView::Semi(
            new_expr(
                until.span,
                unit_ty(),
                ExprKindView::Assign(
                    Box::new(flag.local_ref()),
                    Box::new(
                        new_expr(
                            until.span,
                            bool_ty(),
                            ExprKindView::UnOp(UnOp::NotL, Box::new(until)),
                        ),
                    ),
                ),
            ),
        ),
    );
    let tail = match fixup {
        Some(fix) => seq![
            update,
            new_stmt(
                fix.span,
                StmtKindView::Expr(
                    new_expr(
                        fix.span,
                        unit_ty(),
                        ExprKindView::If(
                            Box::new(flag.local_ref()),
                            Box::new(new_expr(fix.span, unit_ty(), ExprKindView::Block(fix))),
                            None,
                        ),
                    ),
                ),
            ),
        ],
        None => seq![update],
    };
    let looped = BlockView { id: body.id, span: body.span, ty: body.ty, stmts: body.stmts + tail };
    new_block_expr(span, seq![init, new_while(flag.local_ref(), looped, span)])
}

/// What stands in place of `for pat in iterable body` where `iterable` is an
/// array of `item`.
///
/// The array is bound once, then its length, then an index that starts at
/// zero. The loop runs while the index is below the length; on every round
/// `pat` is bound to the item at the index before the body, and the index
/// goes up by one after it.
#[verifier::opaque]
pub open spec fn for_array_expansion(
    pat: PatView,
    iterable: ExprView,
    body: BlockView,
    span: Span,
    first: nat,
    core: Seq<TermView>,
) -> ExprView {
    let item = array_item(iterable.ty);
    let callee = length_callee(core, item, iterable.span).unwrap();
    let array = template("array_id"@, nth_id(first, 0), iterable.ty, iterable.span);
    let len = template("len_id"@, nth_id(first, 1), int_ty(), iterable.span);
    let index = template("index_id"@, nth_id(first, 2), int_ty(), iterable.span);
    let array_capture = array.init(Mutability::Immutable, iterable);
    let len_capture = array_len_init(array, len, callee);
    let index_init = index.init(
        Mutability::Mutable,
        new_expr(iterable.span, int_ty(), ExprKindView::Lit(Lit::Int(0))),
    );
    let pat_init = array_item_init(pat, array, index, item, span);
    let update = new_update(
        BinOp::Add,
        index,
        new_expr(iterable.span, int_ty(), ExprKindView::Lit(Lit::Int(1))),
    );
    let cond = new_bin_op(BinOp::Lt, index.local_ref(), len.local_ref(), bool_ty(), iterable.span);
    new_block_expr(
        span,
        seq![
            array_capture,
            len_capture,
            index_init,
            new_while(cond, wrapped(body, pat_init, update), span),
        ],
    )
}

/// The test that a loop over a range makes before every round: the step is
/// positive and the index has not passed the end, or the step is negative
/// and the index has not gone below it.
pub open spec fn range_guard(
    index: IdentTemplateView,
    step: IdentTemplateView,
    end: IdentTemplateView,
    span: Span,
) -> ExprView {
    let zero = new_expr(span, int_ty(), ExprKindView::Lit(Lit::Int(0)));
    new_bin_op(
        BinOp::OrL,
        new_bin_op(
            BinOp::AndL,
            new_bin_op(BinOp::Gt, step.local_ref(), zero, bool_ty(), span),
            new_bin_op(BinOp::Lte, index.local_ref(), end.local_ref(), bool_ty(), span),
            bool_ty(),
            span,
        ),
        new_bin_op(
            BinOp::AndL,
            new_bin_op(BinOp::Lt, step.local_ref(), zero, bool_ty(), span),
            new_bin_op(BinOp::Gte, index.local_ref(), end.local_ref(), bool_ty(), span),
            bool_ty(),
            span,
        ),
        bool_ty(),
        span,
    )
}

/// What stands in place of `for pat in iterable body` where `iterable` is a
/// range.
///
/// The range is bound once; then a mutable index to its start, and its step
/// and end. The loop runs while `range_guard` holds; on every round `pat` is
/// bound to the index before the body, and the index moves by the step after
/// it.
#[verifier::opaque]
pub open spec fn for_range_expansion(
    pat: PatView,
    iterable: ExprView,
    body: BlockView,
    span: Span,
    first: nat,
) -> ExprView {
    let range = template("range_id"@, nth_id(first, 0), range_ty(), iterable.span);
    let index = template("index_id"@, nth_id(first, 1), int_ty(), iterable.span);
    let step = template("step_id"@, nth_id(first, 2), int_ty(), iterable.span);
    let end = template("end_id"@, nth_id(first, 3), int_ty(), iterable.span);
    let range_capture = range.init(Mutability::Immutable, iterable);
    let index_init = index.init(Mutability::Mutable, new_range_field(range, PrimField::Start));
    let step_init = step.init(Mutability::Immutable, new_range_field(range, PrimField::Step));
    let end_init = end.init(Mutability::Immutable, new_range_field(range, PrimField::End));
    let pat_init = new_stmt(
        span,
        StmtKindView::Local(Mutability::Immutable, pat, index.local_ref()),
    );
    let update = new_update(BinOp::Add, index, step.local_ref());
    let cond = range_guard(index, step, end, iterable.span);
    new_block_expr(
        span,
        seq![
            range_capture,
            index_init,
            step_init,
            end_init,
            new_while(cond, wrapped(body, pat_init, update), span),
        ],
    )
}

} // verus!
