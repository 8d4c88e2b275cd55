//! Builders for the nodes that the pass adds.

use vstd::prelude::*;
use crate::assigner::NodeId;
use crate::common::{create_gen_core_ref, IdentTemplate};
use crate::global::Table;
use crate::hir::{
    stmts_view, BinOp, Block, Expr, ExprKind, ExprKindView, Field, Lit, Mutability, Pat, PrimField,
    Stmt, StmtKind,
};
use crate::loop_unification::expansion::{
    array_item, array_item_init, array_len_init, int_ty, length_callee, new_bin_op, new_block_expr,
    new_expr, new_range_field, new_update, new_while, range_ty, wrapped,
};
use crate::span::Span;
use crate::ty::{args_view, GenericArg, GenericArgView, Prim, Ty};

verus! {

/// The views of a list of statements with one more at its end.
pub(crate) proof fn lemma_stmts_view_push(stmts: Seq<Stmt>, stmt: Stmt)
    ensures
        stmts_view(stmts.push(stmt)) == stmts_view(stmts).push(stmt@),
{
    assert(stmts_view(stmts.push(stmt)) =~= stmts_view(stmts).push(stmt@));
}

/// The views of a list of statements with one more at its start.
pub(crate) proof fn lemma_stmts_view_insert_first(stmts: Seq<Stmt>, stmt: Stmt)
    ensures
        stmts_view(stmts.insert(0, stmt)) == seq![stmt@] + stmts_view(stmts),
{
    assert(stmts_view(stmts.insert(0, stmt)) =~= seq![stmt@] + stmts_view(stmts));
}

pub(crate) fn gen_bin_op(op: BinOp, lhs: Expr, rhs: Expr, ty: Ty, span: Span) -> (r: Expr)
    ensures
        r@ == new_bin_op(op, lhs@, rhs@, ty@, span),
{
    Expr { id: NodeId::default(), span, ty, kind: ExprKind::BinOp(op, Box::new(lhs), Box::new(rhs)) }
}

pub(crate) fn gen_update(op: BinOp, local: &IdentTemplate, rhs: Expr) -> (r: Stmt)
    ensures
        r@ == new_update(op, local@, rhs@),
{
    Stmt {
        id: NodeId::default(),
        span: local.span,
        kind: StmtKind::Semi(
            Expr {
                id: NodeId::default(),
                span: local.span,
                ty: Ty::unit(),
                kind: ExprKind::AssignOp(op, Box::new(local.gen_local_ref()), Box::new(rhs)),
            },
        ),
    }
}

pub(crate) fn gen_while(cond: Expr, body: Block, span: Span) -> (r: Stmt)
    ensures
        r@ == new_while(cond@, body@, span),
{
    Stmt {
        id: NodeId::default(),
        span,
        kind: StmtKind::Expr(
            Expr {
                id: NodeId::default(),
                span,
                ty: Ty::unit(),
                kind: ExprKind::While(Box::new(cond), body),
            },
        ),
    }
}

pub(crate) fn gen_block_expr(span: Span, stmts: Vec<Stmt>) -> (r: Expr)
    ensures
        r@ == new_block_expr(span, stmts_view(stmts@)),
{
    let block = Block { id: NodeId::default(), span, ty: Ty::unit(), stmts };
    assert(block@.stmts == stmts_view(stmts@));
    let r = Expr { id: NodeId::default(), span, ty: Ty::unit(), kind: ExprKind::Block(block) };
    assert(r@.kind == ExprKindView::Block(block@));
    r
}

pub(crate) fn gen_range_field(range: &IdentTemplate, field: PrimField) -> (r: Expr)
    ensures
        r@ == new_range_field(range@, field),
{
    Expr {
        id: NodeId::default(),
        span: range.span,
        ty: Ty::Prim(Prim::Int),
        kind: ExprKind::Field(Box::new(range.gen_local_ref()), Field::Prim(field)),
    }
}

pub(crate) fn gen_int(value: i64, span: Span) -> (r: Expr)
    ensures
        r@ == new_expr(
            span,
            int_ty(),
            ExprKindView::Lit(Lit::Int(value)),
        ),
{
    Expr { id: NodeId::default(), span, ty: Ty::Prim(Prim::Int), kind: ExprKind::Lit(Lit::Int(value)) }
}

pub(crate) fn gen_wrapped(body: Block, first: Stmt, last: Stmt) -> (r: Block)
    ensures
        r@ == wrapped(body@, first@, last@),
{
    let mut block = body;
    proof {
        lemma_stmts_view_insert_first(block.stmts@, first);
        lemma_stmts_view_push(block.stmts@.insert(0, first), last);
    }
    block.stmts.insert(0, first);
    block.stmts.push(last);
    assert(block@.stmts =~= seq![first@] + body@.stmts + seq![last@]);
    block
}

pub(crate) fn gen_array_len_init(array: &IdentTemplate, len: &IdentTemplate, callee: Expr) -> (r: Stmt)
    ensures
        r@ == array_len_init(array@, len@, callee@),
{
    len.gen_id_init(
        Mutability::Immutable,
        Expr {
            id: NodeId::default(),
            span: array.span,
            ty: array.ty.clone(),
            kind: ExprKind::Call(Box::new(callee), Box::new(array.gen_local_ref())),
        },
    )
}

pub(crate) fn gen_array_item_init(
    pat: Pat,
    array: &IdentTemplate,
    index: &IdentTemplate,
    item: Ty,
    span: Span,
) -> (r: Stmt)
    ensures
        r@ == array_item_init(pat@, array@, index@, item@, span),
{
    Stmt {
        id: NodeId::default(),
        span,
        kind: StmtKind::Local(
            Mutability::Immutable,
            pat,
            Expr {
                id: NodeId::default(),
                span: array.span,
                ty: item,
                kind: ExprKind::Index(
                    Box::new(array.gen_local_ref()),
                    Box::new(index.gen_local_ref()),
                ),
            },
        ),
    }
}

/// The item type of an array type; the invalid type for any other.
pub(crate) fn item_of(ty: &Ty) -> (r: Ty)
    ensures
        r@ == array_item(ty@),
{
    match ty {
        Ty::Array(item) => (**item).clone(),
        _ => Ty::Invalid,
    }
}

/// The reference to the core library's array length for arrays of `item`.
pub(crate) fn gen_length_callee(core: &Table, item: Ty, span: Span) -> (r: Option<Expr>)
    ensures
        match length_callee(core@, item@, span) {
            Some(callee) => r.is_some() && r.unwrap()@ == callee,
            None => r.is_none(),
        },
{
    let generics = vec![GenericArg::Ty(item)];
    assert(args_view(generics@) =~= seq![GenericArgView::Ty(item@)]);
    create_gen_core_ref(core, "Microsoft.Quantum.Core", "Length", generics, span)
}

pub(crate) fn is_array(ty: &Ty) -> (r: bool)
    ensures
        r == (ty@ is Array),
{
    match ty {
        Ty::Array(_) => true,
        _ => false,
    }
}

pub(crate) fn is_range(ty: &Ty) -> (r: bool)
    ensures
        r == (ty@ == range_ty()),
{
    match ty {
        Ty::Prim(Prim::Range) => true,
        _ => false,
    }
}

} // verus!
