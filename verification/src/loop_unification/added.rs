//! The locals that the pass adds, and the identities they carry.

use vstd::prelude::*;
use crate::assigner::{NodeId, PLACEHOLDER};
use crate::hir::{
    BlockView, ExprKindView, ExprView, PatKindView, PatView, StmtKindView, StmtView,
    StringComponentView,
};

verus! {

/// Whether a pattern, if the pass added it, binds a name whose identity is
/// at least `lo` and below `hi`. The patterns that the pass adds carry the
/// placeholder and bind one name.
pub open spec fn binder_within(pat: PatView, lo: nat, hi: nat) -> bool {
    pat.id == NodeId(PLACEHOLDER) ==> match pat.kind {
        PatKindView::Bind(name) => lo <= name.id.0 < hi,
        _ => true,
    }
}

/// Whether every local that the pass added to `e` has its identity from
/// `lo` up to, not including, `hi`.
pub open spec fn added_within_expr(e: ExprView, lo: nat, hi: nat) -> bool
    decreases e,
{
    match e.kind {
        ExprKindView::Array(items) => added_within_exprs(items, lo, hi),
        ExprKindView::Assign(lhs, rhs) => added_within_expr(*lhs, lo, hi) && added_within_expr(*rhs, lo, hi),
        ExprKindView::AssignOp(_, lhs, rhs) => added_within_expr(*lhs, lo, hi) && added_within_expr(
            *rhs,
            lo, hi,
        ),
        ExprKindView::BinOp(_, lhs, rhs) => added_within_expr(*lhs, lo, hi) && added_within_expr(
            *rhs,
            lo, hi,
        ),
        ExprKindView::Block(block) => added_within_block(block, lo, hi),
        ExprKindView::Call(callee, arg) => added_within_expr(*callee, lo, hi) && added_within_expr(
            *arg,
            lo, hi,
        ),
        ExprKindView::Fail(message) => added_within_expr(*message, lo, hi),
        ExprKindView::Field(record, _) => added_within_expr(*record, lo, hi),
        ExprKindView::For(pat, iterable, body) => added_within_expr(*iterable, lo, hi)
            && added_within_block(body, lo, hi) && binder_within(pat, lo, hi),
        ExprKindView::If(cond, body, otherwise) => added_within_expr(*cond, lo, hi) && added_within_expr(
            *body,
            lo, hi,
        ) && added_within_opt_expr(otherwise, lo, hi),
        ExprKindView::Index(array, index) => added_within_expr(*array, lo, hi) && added_within_expr(
            *index,
            lo, hi,
        ),
        ExprKindView::Lit(_) => true,
        ExprKindView::Range(start, step, end) => added_within_opt_expr(start, lo, hi)
            && added_within_opt_expr(step, lo, hi) && added_within_opt_expr(end, lo, hi),
        ExprKindView::Repeat(body, until, fixup) => added_within_block(body, lo, hi)
            && added_within_expr(*until, lo, hi) && added_within_opt_block(fixup, lo, hi),
        ExprKindView::Return(value) => added_within_expr(*value, lo, hi),
        ExprKindView::String(components) => added_within_components(components, lo, hi),
        ExprKindView::Tuple(items) => added_within_exprs(items, lo, hi),
        ExprKindView::UnOp(_, operand) => added_within_expr(*operand, lo, hi),
        ExprKindView::Var(_, _) => true,
        ExprKindView::While(cond, body) => added_within_expr(*cond, lo, hi) && added_within_block(
            body,
            lo, hi,
        ),
    }
}

/// Whether every added local in an expression that may be absent has its identity in the range.
pub open spec fn added_within_opt_expr(e: Option<Box<ExprView>>, lo: nat, hi: nat) -> bool
    decreases e,
{
    match e {
        Some(e) => added_within_expr(*e, lo, hi),
        None => true,
    }
}

/// Whether every added local in a block that may be absent has its identity in the range.
pub open spec fn added_within_opt_block(block: Option<BlockView>, lo: nat, hi: nat) -> bool
    decreases block,
{
    match block {
        Some(block) => added_within_block(block, lo, hi),
        None => true,
    }
}

/// Whether every added local in a list of expressions has its identity in the range.
pub open spec fn added_within_exprs(exprs: Seq<ExprView>, lo: nat, hi: nat) -> bool
    decreases exprs,
{
    forall|i: int| 0 <= i < exprs.len() ==> added_within_expr(#[trigger] exprs[i], lo, hi)
}

/// Whether every added local in a piece of an interpolated string has its identity in the range.
pub open spec fn added_within_component(component: StringComponentView, lo: nat, hi: nat) -> bool
    decreases component,
{
    match component {
        StringComponentView::Expr(e) => added_within_expr(e, lo, hi),
        StringComponentView::Lit(_) => true,
    }
}

/// Whether every added local in the pieces of an interpolated string has
/// its identity in the range.
pub open spec fn added_within_components(
    components: Seq<StringComponentView>,
    lo: nat, hi: nat,
) -> bool
    decreases components,
{
    forall|i: int|
        0 <= i < components.len() ==> added_within_component(#[trigger] components[i], lo, hi)
}

/// Whether every added local in a statement has its identity in the range.
pub open spec fn added_within_stmt(stmt: StmtView, lo: nat, hi: nat) -> bool
    decreases stmt,
{
    match stmt.kind {
        StmtKindView::Expr(e) => added_within_expr(e, lo, hi),
        StmtKindView::Item(_) => true,
        StmtKindView::Local(_, pat, e) => added_within_expr(e, lo, hi) && binder_within(
            pat,
            lo,
            hi,
        ),
        StmtKindView::Semi(e) => added_within_expr(e, lo, hi),
    }
}

/// Whether every added local in a list of statements has its identity in the range.
pub open spec fn added_within_stmts(stmts: Seq<StmtView>, lo: nat, hi: nat) -> bool
    decreases stmts,
{
    forall|i: int| 0 <= i < stmts.len() ==> added_within_stmt(#[trigger] stmts[i], lo, hi)
}

/// Whether every added local in a block has its identity in the range.
pub open spec fn added_within_block(block: BlockView, lo: nat, hi: nat) -> bool
    decreases block,
{
    added_within_stmts(block.stmts, lo, hi)
}

} // verus!
