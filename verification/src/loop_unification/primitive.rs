//! What holds of the pass: its result holds no `for` and no `repeat` loop,
//! and a tree without such loops is left as it is.

use vstd::prelude::*;
use crate::hir::{
    BinOp, BlockView, CallableDeclView, ExprKindView, ExprView, ItemKindView, ItemView, PackageView,
    SpecBodyView, SpecDeclView, StmtKindView, StmtView, StringComponentView,
};

verus! {

/// Whether `e` holds no `for` and no `repeat` loop, at any depth.
pub open spec fn sugar_free_expr(e: ExprView) -> bool
    decreases e,
{
    match e.kind {
        ExprKindView::Array(items) => sugar_free_exprs(items),
        ExprKindView::Assign(lhs, rhs) => sugar_free_expr(*lhs) && sugar_free_expr(*rhs),
        ExprKindView::AssignOp(_, lhs, rhs) => sugar_free_expr(*lhs) && sugar_free_expr(
            *rhs),
        ExprKindView::BinOp(_, lhs, rhs) => sugar_free_expr(*lhs) && sugar_free_expr(
            *rhs),
        ExprKindView::Block(block) => sugar_free_block(block),
        ExprKindView::Call(callee, arg) => sugar_free_expr(*callee) && sugar_free_expr(
            *arg),
        ExprKindView::Fail(message) => sugar_free_expr(*message),
        ExprKindView::Field(record, _) => sugar_free_expr(*record),
        ExprKindView::For(_, _, _) => false,
        ExprKindView::If(cond, body, otherwise) => sugar_free_expr(*cond) && sugar_free_expr(
            *body) && sugar_free_opt_expr(otherwise),
        ExprKindView::Index(array, index) => sugar_free_expr(*array) && sugar_free_expr(
            *index),
        ExprKindView::Lit(_) => true,
        ExprKindView::Range(start, step, end) => sugar_free_opt_expr(start)
            && sugar_free_opt_expr(step) && sugar_free_opt_expr(end),
        ExprKindView::Repeat(_, _, _) => false,
        ExprKindView::Return(value) => sugar_free_expr(*value),
        ExprKindView::String(components) => sugar_free_components(components),
        ExprKindView::Tuple(items) => sugar_free_exprs(items),
        ExprKindView::UnOp(_, operand) => sugar_free_expr(*operand),
        ExprKindView::Var(_, _) => true,
        ExprKindView::While(cond, body) => sugar_free_expr(*cond) && sugar_free_block(
            body),
    }
}

/// Whether an expression that may be absent holds no `for` and no `repeat` loop.
pub open spec fn sugar_free_opt_expr(e: Option<Box<ExprView>>) -> bool
    decreases e,
{
    match e {
        Some(e) => sugar_free_expr(*e),
        None => true,
    }
}

/// Whether a block that may be absent holds no `for` and no `repeat` loop.
pub open spec fn sugar_free_opt_block(block: Option<BlockView>) -> bool
    decreases block,
{
    match block {
        Some(block) => sugar_free_block(block),
        None => true,
    }
}

/// Whether a list of expressions holds no `for` and no `repeat` loop.
pub open spec fn sugar_free_exprs(exprs: Seq<ExprView>) -> bool
    decreases exprs,
{
    forall|i: int| 0 <= i < exprs.len() ==> sugar_free_expr(#[trigger] exprs[i])
}

/// Whether a piece of an interpolated string holds no `for` and no `repeat` loop.
pub open spec fn sugar_free_component(component: StringComponentView) -> bool
    decreases component,
{
    match component {
        StringComponentView::Expr(e) => sugar_free_expr(e),
        StringComponentView::Lit(_) => true,
    }
}

/// Whether the pieces of an interpolated string hold no `for` and no `repeat` loop.
pub open spec fn sugar_free_components(components: Seq<StringComponentView>) -> bool
    decreases components,
{
    forall|i: int|
        0 <= i < components.len() ==> sugar_free_component(#[trigger] components[i])
}

/// Whether a statement holds no `for` and no `repeat` loop.
pub open spec fn sugar_free_stmt(stmt: StmtView) -> bool
    decreases stmt,
{
    match stmt.kind {
        StmtKindView::Expr(e) => sugar_free_expr(e),
        StmtKindView::Item(_) => true,
        StmtKindView::Local(_, _, e) => sugar_free_expr(e),
        StmtKindView::Semi(e) => sugar_free_expr(e),
    }
}

/// Whether a list of statements holds no `for` and no `repeat` loop.
pub open spec fn sugar_free_stmts(stmts: Seq<StmtView>) -> bool
    decreases stmts,
{
    forall|i: int| 0 <= i < stmts.len() ==> sugar_free_stmt(#[trigger] stmts[i])
}

/// Whether a block holds no `for` and no `repeat` loop.
pub open spec fn sugar_free_block(block: BlockView) -> bool
    decreases block,
{
    sugar_free_stmts(block.stmts)
}

/// Whether a specialization holds no `for` and no `repeat` loop.
pub open spec fn sugar_free_spec(spec: SpecDeclView) -> bool {
    match spec.body {
        SpecBodyView::Gen(_) => true,
        SpecBodyView::Impl(_, block) => sugar_free_block(block),
    }
}

/// Whether a specialization that may be absent holds no `for` and no
/// `repeat` loop.
pub open spec fn sugar_free_opt_spec(spec: Option<SpecDeclView>) -> bool {
    match spec {
        Some(spec) => sugar_free_spec(spec),
        None => true,
    }
}

/// Whether a callable holds no `for` and no `repeat` loop.
pub open spec fn sugar_free_callable(decl: CallableDeclView) -> bool {
    &&& sugar_free_spec(decl.body)
    &&& sugar_free_opt_spec(decl.adj)
    &&& sugar_free_opt_spec(decl.ctl)
    &&& sugar_free_opt_spec(decl.ctl_adj)
}

/// Whether an item holds no `for` and no `repeat` loop.
pub open spec fn sugar_free_item(item: ItemView) -> bool {
    match item.kind {
        ItemKindView::Callable(decl) => sugar_free_callable(decl),
        ItemKindView::Namespace(_, _) => true,
    }
}

/// Whether a package holds no `for` and no `repeat` loop: neither in its
/// items nor in its first expression.
pub open spec fn sugar_free_package(package: PackageView) -> bool {
    &&& forall|i: int|
        0 <= i < package.items.len() ==> sugar_free_item(#[trigger] package.items[i])
    &&& match package.entry {
        Some(e) => sugar_free_expr(e),
        None => true,
    }
}

} // verus!
