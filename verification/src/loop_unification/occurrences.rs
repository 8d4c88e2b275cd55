//! Counting the expressions that carry an identity.

use vstd::prelude::*;
use crate::assigner::NodeId;
use crate::hir::{BlockView, ExprKindView, ExprView, StmtKindView, StmtView, StringComponentView};
use crate::loop_unification::model::{is_loop, total};

verus! {

/// How many expressions carry the identity `id` in `e`.
pub open spec fn occ_expr(id: NodeId, e: ExprView) -> nat
    decreases e,
{
    (if e.id == id { 1nat } else { 0nat }) + match e.kind {
        ExprKindView::Array(items) => total(occ_expr_counts(id, items)),
        ExprKindView::Assign(lhs, rhs) => occ_expr(id, *lhs) + occ_expr(id, *rhs),
        ExprKindView::AssignOp(_, lhs, rhs) => occ_expr(id, *lhs) + occ_expr(id, *rhs),
        ExprKindView::BinOp(_, lhs, rhs) => occ_expr(id, *lhs) + occ_expr(id, *rhs),
        ExprKindView::Block(block) => occ_block(id, block),
        ExprKindView::Call(callee, arg) => occ_expr(id, *callee) + occ_expr(id, *arg),
        ExprKindView::Fail(message) => occ_expr(id, *message),
        ExprKindView::Field(record, _) => occ_expr(id, *record),
        ExprKindView::For(_, iterable, body) => occ_expr(id, *iterable) + occ_block(id, body),
        ExprKindView::If(cond, body, otherwise) => occ_expr(id, *cond) + occ_expr(id, *body)
            + occ_opt_expr(id, otherwise),
        ExprKindView::Index(array, index) => occ_expr(id, *array) + occ_expr(id, *index),
        ExprKindView::Lit(_) => 0,
        ExprKindView::Range(start, step, end) => occ_opt_expr(id, start) + occ_opt_expr(id, step)
            + occ_opt_expr(id, end),
        ExprKindView::Repeat(body, until, fixup) => occ_block(id, body) + occ_expr(id, *until)
            + occ_opt_block(id, fixup),
        ExprKindView::Return(value) => occ_expr(id, *value),
        ExprKindView::String(components) => total(occ_component_counts(id, components)),
        ExprKindView::Tuple(items) => total(occ_expr_counts(id, items)),
        ExprKindView::UnOp(_, operand) => occ_expr(id, *operand),
        ExprKindView::Var(_, _) => 0,
        ExprKindView::While(cond, body) => occ_expr(id, *cond) + occ_block(id, body),
    }
}

/// How many expressions carry the identity `id` in an expression that may be absent.
pub open spec fn occ_opt_expr(id: NodeId, e: Option<Box<ExprView>>) -> nat
    decreases e,
{
    match e {
        Some(e) => occ_expr(id, *e),
        None => 0,
    }
}

/// How many expressions carry the identity `id` in a block that may be absent.
pub open spec fn occ_opt_block(id: NodeId, block: Option<BlockView>) -> nat
    decreases block,
{
    match block {
        Some(block) => occ_block(id, block),
        None => 0,
    }
}

/// How many expressions carry the identity `id` in each of a list of expressions.
pub open spec fn occ_expr_counts(id: NodeId, exprs: Seq<ExprView>) -> Seq<nat>
    decreases exprs,
{
    Seq::new(
        exprs.len(),
        |i: int|
            if 0 <= i < exprs.len() {
                occ_expr(id, exprs[i])
            } else {
                0
            },
    )
}

/// How many expressions carry the identity `id` in a piece of an interpolated string.
pub open spec fn occ_component(id: NodeId, component: StringComponentView) -> nat
    decreases component,
{
    match component {
        StringComponentView::Expr(e) => occ_expr(id, e),
        StringComponentView::Lit(_) => 0,
    }
}

/// How many expressions carry the identity `id` in each piece of an interpolated string.
pub open spec fn occ_component_counts(id: NodeId, components: Seq<StringComponentView>) -> Seq<nat>
    decreases components,
{
    Seq::new(
        components.len(),
        |i: int|
            if 0 <= i < components.len() {
                occ_component(id, components[i])
            } else {
                0
            },
    )
}

/// How many expressions carry the identity `id` in a statement.
pub open spec fn occ_stmt(id: NodeId, stmt: StmtView) -> nat
    decreases stmt,
{
    match stmt.kind {
        StmtKindView::Expr(e) => occ_expr(id, e),
        StmtKindView::Item(_) => 0,
        StmtKindView::Local(_, _, e) => occ_expr(id, e),
        StmtKindView::Semi(e) => occ_expr(id, e),
    }
}

/// How many expressions carry the identity `id` in each of a list of statements.
pub open spec fn occ_stmt_counts(id: NodeId, stmts: Seq<StmtView>) -> Seq<nat>
    decreases stmts,
{
    Seq::new(
        stmts.len(),
        |i: int|
            if 0 <= i < stmts.len() {
                occ_stmt(id, stmts[i])
            } else {
                0
            },
    )
}

/// How many expressions carry the identity `id` in a block.
pub open spec fn occ_block(id: NodeId, block: BlockView) -> nat
    decreases block,
{
    total(occ_stmt_counts(id, block.stmts))
}

/// How many expressions that are no `for` and no `repeat` loop carry the identity `id` in `e`.
pub open spec fn kept_expr(id: NodeId, e: ExprView) -> nat
    decreases e,
{
    (if e.id == id && !is_loop(e) { 1nat } else { 0nat }) + match e.kind {
        ExprKindView::Array(items) => total(kept_expr_counts(id, items)),
        ExprKindView::Assign(lhs, rhs) => kept_expr(id, *lhs) + kept_expr(id, *rhs),
        ExprKindView::AssignOp(_, lhs, rhs) => kept_expr(id, *lhs) + kept_expr(id, *rhs),
        ExprKindView::BinOp(_, lhs, rhs) => kept_expr(id, *lhs) + kept_expr(id, *rhs),
        ExprKindView::Block(block) => kept_block(id, block),
        ExprKindView::Call(callee, arg) => kept_expr(id, *callee) + kept_expr(id, *arg),
        ExprKindView::Fail(message) => kept_expr(id, *message),
        ExprKindView::Field(record, _) => kept_expr(id, *record),
        ExprKindView::For(_, iterable, body) => kept_expr(id, *iterable) + kept_block(id, body),
        ExprKindView::If(cond, body, otherwise) => kept_expr(id, *cond) + kept_expr(id, *body)
            + kept_opt_expr(id, otherwise),
        ExprKindView::Index(array, index) => kept_expr(id, *array) + kept_expr(id, *index),
        ExprKindView::Lit(_) => 0,
        ExprKindView::Range(start, step, end) => kept_opt_expr(id, start) + kept_opt_expr(id, step)
            + kept_opt_expr(id, end),
        ExprKindView::Repeat(body, until, fixup) => kept_block(id, body) + kept_expr(id, *until)
            + kept_opt_block(id, fixup),
        ExprKindView::Return(value) => kept_expr(id, *value),
        ExprKindView::String(components) => total(kept_component_counts(id, components)),
        ExprKindView::Tuple(items) => total(kept_expr_counts(id, items)),
        ExprKindView::UnOp(_, operand) => kept_expr(id, *operand),
        ExprKindView::Var(_, _) => 0,
        ExprKindView::While(cond, body) => kept_expr(id, *cond) + kept_block(id, body),
    }
}

/// How many expressions that are no `for` and no `repeat` loop carry the
/// identity `id` in an expression that may be absent.
pub open spec fn kept_opt_expr(id: NodeId, e: Option<Box<ExprView>>) -> nat
    decreases e,
{
    match e {
        Some(e) => kept_expr(id, *e),
        None => 0,
    }
}

/// How many expressions that are no `for` and no `repeat` loop carry the
/// identity `id` in a block that may be absent.
pub open spec fn kept_opt_block(id: NodeId, block: Option<BlockView>) -> nat
    decreases block,
{
    match block {
        Some(block) => kept_block(id, block),
        None => 0,
    }
}

/// How many expressions that are no `for` and no `repeat` loop carry the
/// identity `id` in each of a list of expressions.
pub open spec fn kept_expr_counts(id: NodeId, exprs: Seq<ExprView>) -> Seq<nat>
    decreases exprs,
{
    Seq::new(
        exprs.len(),
        |i: int|
            if 0 <= i < exprs.len() {
                kept_expr(id, exprs[i])
            } else {
                0
            },
    )
}

/// How many expressions that are no `for` and no `repeat` loop carry the
/// identity `id` in a piece of an interpolated string.
pub open spec fn kept_component(id: NodeId, component: StringComponentView) -> nat
    decreases component,
{
    match component {
        StringComponentView::Expr(e) => kept_expr(id, e),
        StringComponentView::Lit(_) => 0,
    }
}

/// How many expressions that are no `for` and no `repeat` loop carry the
/// identity `id` in each piece of an interpolated string.
pub open spec fn kept_component_counts(id: NodeId, components: Seq<StringComponentView>) -> Seq<nat>
    decreases components,
{
    Seq::new(
        components.len(),
        |i: int|
            if 0 <= i < components.len() {
                kept_component(id, components[i])
            } else {
                0
            },
    )
}

/// How many expressions that are no `for` and no `repeat` loop carry the
/// identity `id` in a statement.
pub open spec fn kept_stmt(id: NodeId, stmt: StmtView) -> nat
    decreases stmt,
{
    match stmt.kind {
        StmtKindView::Expr(e) => kept_expr(id, e),
        StmtKindView::Item(_) => 0,
        StmtKindView::Local(_, _, e) => kept_expr(id, e),
        StmtKindView::Semi(e) => kept_expr(id, e),
    }
}

/// How many expressions that are no `for` and no `repeat` loop carry the
/// identity `id` in each of a list of statements.
pub open spec fn kept_stmt_counts(id: NodeId, stmts: Seq<StmtView>) -> Seq<nat>
    decreases stmts,
{
    Seq::new(
        stmts.len(),
        |i: int|
            if 0 <= i < stmts.len() {
                kept_stmt(id, stmts[i])
            } else {
                0
            },
    )
}

/// How many expressions that are no `for` and no `repeat` loop carry the identity `id` in a block.
pub open spec fn kept_block(id: NodeId, block: BlockView) -> nat
    decreases block,
{
    total(kept_stmt_counts(id, block.stmts))
}

} // verus!
