//! What the pass makes of a tree.
//!
//! `lower_expr` and its companions give the tree after the pass, as a
//! function of the tree before it, the first free identity and the core
//! library's table. Children are lowered before the node that holds them,
//! from left to right, so the identities that a loop's own fresh locals get
//! come after all those that its parts used up. `fresh_expr` counts the
//! identities that a tree uses up, and `lowerable_expr` says of which trees
//! the pass can be asked.

use vstd::prelude::*;
use crate::global::TermView;
use crate::hir::{
    BlockView, CallableDeclView, ExprKindView, ExprView, ItemKindView, ItemView, PackageView,
    SpecBodyView, SpecDeclView, StmtKindView, StmtView, StringComponentView,
};
use crate::loop_unification::expansion::{
    bool_ty, for_array_expansion, for_range_expansion, length_callee, repeat_expansion,
};
use crate::ty::{unit_ty, Prim, TyView};

verus! {

/// The sum of a list of counts.
pub open spec fn total(counts: Seq<nat>) -> nat
    decreases counts.len(),
{
    if counts.len() == 0 {
        0
    } else {
        total(counts.drop_last()) + counts.last()
    }
}

/// The sum of the first `count` of a list of counts.
#[verifier::opaque]
pub open spec fn total_before(counts: Seq<nat>, count: int) -> nat {
    total(counts.take(count))
}

/// Whether an expression is a `for` or a `repeat` loop.
pub open spec fn is_loop(e: ExprView) -> bool {
    e.kind is For || e.kind is Repeat
}

/// The type that an expression has once it is lowered: a loop gives way to
/// a block of unit type, anything else keeps its type.
pub open spec fn lowered_ty(e: ExprView) -> TyView {
    if is_loop(e) {
        unit_ty()
    } else {
        e.ty
    }
}

/// How many fresh locals the loop over `iterable` needs for itself: three
/// over an array, four over a range.
pub open spec fn for_fresh(iterable: ExprView) -> nat {
    match lowered_ty(iterable) {
        TyView::Array(_) => 3,
        TyView::Prim(Prim::Range) => 4,
        _ => 0,
    }
}

/// Whether `iterable` can be looped over: it is an array, and the core
/// library's array length is at hand for its items, or it is a range.
pub open spec fn iterable_ok(iterable: ExprView, core: Seq<TermView>) -> bool {
    match lowered_ty(iterable) {
        TyView::Array(item) => length_callee(core, *item, iterable.span) is Some,
        TyView::Prim(Prim::Range) => true,
        _ => false,
    }
}

/// How many identities lowering `e` uses up.
#[verifier::opaque]
pub open spec fn fresh_expr(e: ExprView) -> nat
    decreases e,
{
    match e.kind {
        ExprKindView::Array(items) => total(expr_counts(items)),
        ExprKindView::Assign(lhs, rhs) => fresh_expr(*lhs) + fresh_expr(*rhs),
        ExprKindView::AssignOp(_, lhs, rhs) => fresh_expr(*lhs) + fresh_expr(*rhs),
        ExprKindView::BinOp(_, lhs, rhs) => fresh_expr(*lhs) + fresh_expr(*rhs),
        ExprKindView::Block(block) => fresh_block(block),
        ExprKindView::Call(callee, arg) => fresh_expr(*callee) + fresh_expr(*arg),
        ExprKindView::Fail(message) => fresh_expr(*message),
        ExprKindView::Field(record, _) => fresh_expr(*record),
        ExprKindView::For(_, iterable, body) => fresh_expr(*iterable) + fresh_block(body)
            + for_fresh(*iterable),
        ExprKindView::If(cond, body, otherwise) => fresh_expr(*cond) + fresh_expr(*body)
            + fresh_opt_expr(otherwise),
        ExprKindView::Index(array, index) => fresh_expr(*array) + fresh_expr(*index),
        ExprKindView::Lit(_) => 0,
        ExprKindView::Range(start, step, end) => fresh_opt_expr(start) + fresh_opt_expr(step)
            + fresh_opt_expr(end),
        ExprKindView::Repeat(body, until, fixup) => fresh_block(body) + fresh_expr(*until)
            + fresh_opt_block(fixup) + 1,
        ExprKindView::Return(value) => fresh_expr(*value),
        ExprKindView::String(components) => total(component_counts(components)),
        ExprKindView::Tuple(items) => total(expr_counts(items)),
        ExprKindView::UnOp(_, operand) => fresh_expr(*operand),
        ExprKindView::Var(_, _) => 0,
        ExprKindView::While(cond, body) => fresh_expr(*cond) + fresh_block(body),
    }
}

/// How many identities lowering an expression that may be absent uses up.
pub open spec fn fresh_opt_expr(e: Option<Box<ExprView>>) -> nat
    decreases e,
{
    match e {
        Some(e) => fresh_expr(*e),
        None => 0,
    }
}

/// How many identities lowering a block that may be absent uses up.
pub open spec fn fresh_opt_block(block: Option<BlockView>) -> nat
    decreases block,
{
    match block {
        Some(block) => fresh_block(block),
        None => 0,
    }
}

/// How many identities lowering each of a list of expressions uses up.
pub open spec fn expr_counts(exprs: Seq<ExprView>) -> Seq<nat>
    decreases exprs,
{
    Seq::new(
        exprs.len(),
        |i: int|
            if 0 <= i < exprs.len() {
                fresh_expr(exprs[i])
            } else {
                0
            },
    )
}

/// How many identities lowering a list of expressions uses up.
pub open spec fn fresh_exprs(exprs: Seq<ExprView>) -> nat
    decreases exprs,
{
    total(expr_counts(exprs))
}

/// How many identities lowering a piece of an interpolated string uses up.
pub open spec fn fresh_component(component: StringComponentView) -> nat
    decreases component,
{
    match component {
        StringComponentView::Expr(e) => fresh_expr(e),
        StringComponentView::Lit(_) => 0,
    }
}

/// How many identities lowering each piece of an interpolated string uses
/// up.
pub open spec fn component_counts(components: Seq<StringComponentView>) -> Seq<nat>
    decreases components,
{
    Seq::new(
        components.len(),
        |i: int|
            if 0 <= i < components.len() {
                fresh_component(components[i])
            } else {
                0
            },
    )
}

/// How many identities lowering the pieces of an interpolated string uses up.
pub open spec fn fresh_components(components: Seq<StringComponentView>) -> nat
    decreases components,
{
    total(component_counts(components))
}

/// How many identities lowering a statement uses up.
pub open spec fn fresh_stmt(stmt: StmtView) -> nat
    decreases stmt,
{
    match stmt.kind {
        StmtKindView::Expr(e) => fresh_expr(e),
        StmtKindView::Item(_) => 0,
        StmtKindView::Local(_, _, e) => fresh_expr(e),
        StmtKindView::Semi(e) => fresh_expr(e),
    }
}

/// How many identities lowering each of a list of statements uses up.
pub open spec fn stmt_counts(stmts: Seq<StmtView>) -> Seq<nat>
    decreases stmts,
{
    Seq::new(
        stmts.len(),
        |i: int|
            if 0 <= i < stmts.len() {
                fresh_stmt(stmts[i])
            } else {
                0
            },
    )
}

/// How many identities lowering a list of statements uses up.
pub open spec fn fresh_stmts(stmts: Seq<StmtView>) -> nat
    decreases stmts,
{
    total(stmt_counts(stmts))
}

/// How many identities lowering a block uses up.
pub open spec fn fresh_block(block: BlockView) -> nat
    decreases block,
{
    total(stmt_counts(block.stmts))
}

/// Whether the pass can be asked to lower `e`: every `for` in it loops over
/// an array or a range, and every `repeat` in it has a Boolean condition.
#[verifier::opaque]
pub open spec fn lowerable_expr(e: ExprView, core: Seq<TermView>) -> bool
    decreases e,
{
    match e.kind {
        ExprKindView::Array(items) => lowerable_exprs(items, core),
        ExprKindView::Assign(lhs, rhs) => lowerable_expr(*lhs, core) && lowerable_expr(*rhs, core),
        ExprKindView::AssignOp(_, lhs, rhs) => lowerable_expr(*lhs, core) && lowerable_expr(
            *rhs,
            core,
        ),
        ExprKindView::BinOp(_, lhs, rhs) => lowerable_expr(*lhs, core) && lowerable_expr(
            *rhs,
            core,
        ),
        ExprKindView::Block(block) => lowerable_block(block, core),
        ExprKindView::Call(callee, arg) => lowerable_expr(*callee, core) && lowerable_expr(
            *arg,
            core,
        ),
        ExprKindView::Fail(message) => lowerable_expr(*message, core),
        ExprKindView::Field(record, _) => lowerable_expr(*record, core),
        ExprKindView::For(_, iterable, body) => lowerable_expr(*iterable, core) && lowerable_block(
            body,
            core,
        ) && iterable_ok(*iterable, core),
        ExprKindView::If(cond, body, otherwise) => lowerable_expr(*cond, core) && lowerable_expr(
            *body,
            core,
        ) && lowerable_opt_expr(otherwise, core),
        ExprKindView::Index(array, index) => lowerable_expr(*array, core) && lowerable_expr(
            *index,
            core,
        ),
        ExprKindView::Lit(_) => true,
        ExprKindView::Range(start, step, end) => lowerable_opt_expr(start, core)
            && lowerable_opt_expr(step, core) && lowerable_opt_expr(end, core),
        ExprKindView::Repeat(body, until, fixup) => lowerable_block(body, core) && lowerable_expr(
            *until,
            core,
        ) && lowerable_opt_block(fixup, core) && lowered_ty(*until) == bool_ty(),
        ExprKindView::Return(value) => lowerable_expr(*value, core),
        ExprKindView::String(components) => lowerable_components(components, core),
        ExprKindView::Tuple(items) => lowerable_exprs(items, core),
        ExprKindView::UnOp(_, operand) => lowerable_expr(*operand, core),
        ExprKindView::Var(_, _) => true,
        ExprKindView::While(cond, body) => lowerable_expr(*cond, core) && lowerable_block(
            body,
            core,
        ),
    }
}

/// Whether an expression that may be absent can be lowered.
pub open spec fn lowerable_opt_expr(e: Option<Box<ExprView>>, core: Seq<TermView>) -> bool
    decreases e,
{
    match e {
        Some(e) => lowerable_expr(*e, core),
        None => true,
    }
}

/// Whether a block that may be absent can be lowered.
pub open spec fn lowerable_opt_block(block: Option<BlockView>, core: Seq<TermView>) -> bool
    decreases block,
{
    match block {
        Some(block) => lowerable_block(block, core),
        None => true,
    }
}

/// Whether each of a list of expressions can be lowered.
pub open spec fn lowerable_exprs(exprs: Seq<ExprView>, core: Seq<TermView>) -> bool
    decreases exprs,
{
    forall|i: int| 0 <= i < exprs.len() ==> lowerable_expr(#[trigger] exprs[i], core)
}

/// Whether a piece of an interpolated string can be lowered.
pub open spec fn lowerable_component(component: StringComponentView, core: Seq<TermView>) -> bool
    decreases component,
{
    match component {
        StringComponentView::Expr(e) => lowerable_expr(e, core),
        StringComponentView::Lit(_) => true,
    }
}

/// Whether each piece of an interpolated string can be lowered.
pub open spec fn lowerable_components(
    components: Seq<StringComponentView>,
    core: Seq<TermView>,
) -> bool
    decreases components,
{
    forall|i: int|
        0 <= i < components.len() ==> lowerable_component(#[trigger] components[i], core)
}

/// Whether a statement can be lowered.
pub open spec fn lowerable_stmt(stmt: StmtView, core: Seq<TermView>) -> bool
    decreases stmt,
{
    match stmt.kind {
        StmtKindView::Expr(e) => lowerable_expr(e, core),
        StmtKindView::Item(_) => true,
        StmtKindView::Local(_, _, e) => lowerable_expr(e, core),
        StmtKindView::Semi(e) => lowerable_expr(e, core),
    }
}

/// Whether each of a list of statements can be lowered.
pub open spec fn lowerable_stmts(stmts: Seq<StmtView>, core: Seq<TermView>) -> bool
    decreases stmts,
{
    forall|i: int| 0 <= i < stmts.len() ==> lowerable_stmt(#[trigger] stmts[i], core)
}

/// Whether a block can be lowered.
pub open spec fn lowerable_block(block: BlockView, core: Seq<TermView>) -> bool
    decreases block,
{
    lowerable_stmts(block.stmts, core)
}

/// `e` after the pass, where `next` is the first free identity.
#[verifier::opaque]
pub open spec fn lower_expr(e: ExprView, next: nat, core: Seq<TermView>) -> ExprView
    decreases e,
{
    match e.kind {
        ExprKindView::Array(items) => ExprView {
            kind: ExprKindView::Array(lower_exprs(items, next, core)),
            ..e
        },
        ExprKindView::Assign(lhs, rhs) => ExprView {
            kind: ExprKindView::Assign(
                Box::new(lower_expr(*lhs, next, core)),
                Box::new(lower_expr(*rhs, next + fresh_expr(*lhs), core)),
            ),
            ..e
        },
        ExprKindView::AssignOp(op, lhs, rhs) => ExprView {
            kind: ExprKindView::AssignOp(
                op,
                Box::new(lower_expr(*lhs, next, core)),
                Box::new(lower_expr(*rhs, next + fresh_expr(*lhs), core)),
            ),
            ..e
        },
        ExprKindView::BinOp(op, lhs, rhs) => ExprView {
            kind: ExprKindView::BinOp(
                op,
                Box::new(lower_expr(*lhs, next, core)),
                Box::new(lower_expr(*rhs, next + fresh_expr(*lhs), core)),
            ),
            ..e
        },
        ExprKindView::Block(block) => ExprView {
            kind: ExprKindView::Block(lower_block(block, next, core)),
            ..e
        },
        ExprKindView::Call(callee, arg) => ExprView {
            kind: ExprKindView::Call(
                Box::new(lower_expr(*callee, next, core)),
                Box::new(lower_expr(*arg, next + fresh_expr(*callee), core)),
            ),
            ..e
        },
        ExprKindView::Fail(message) => ExprView {
            kind: ExprKindView::Fail(Box::new(lower_expr(*message, next, core))),
            ..e
        },
        ExprKindView::Field(record, field) => ExprView {
            kind: ExprKindView::Field(Box::new(lower_expr(*record, next, core)), field),
            ..e
        },
        ExprKindView::For(pat, iterable, body) => {
            let lowered_iterable = lower_expr(*iterable, next, core);
            let lowered_body = lower_block(body, next + fresh_expr(*iterable), core);
            let first = next + fresh_expr(*iterable) + fresh_block(body);
            match lowered_ty(*iterable) {
                TyView::Array(_) => for_array_expansion(
                    pat,
                    lowered_iterable,
                    lowered_body,
                    e.span,
                    first,
                    core,
                ),
                TyView::Prim(Prim::Range) => for_range_expansion(
                    pat,
                    lowered_iterable,
                    lowered_body,
                    e.span,
                    first,
                ),
                _ => ExprView {
                    kind: ExprKindView::For(pat, Box::new(lowered_iterable), lowered_body),
                    ..e
                },
            }
        },
        ExprKindView::If(cond, body, otherwise) => ExprView {
            kind: ExprKindView::If(
                Box::new(lower_expr(*cond, next, core)),
                Box::new(lower_expr(*body, next + fresh_expr(*cond), core)),
                lower_opt_expr(otherwise, next + fresh_expr(*cond) + fresh_expr(*body), core),
            ),
            ..e
        },
        ExprKindView::Index(array, index) => ExprView {
            kind: ExprKindView::Index(
                Box::new(lower_expr(*array, next, core)),
                Box::new(lower_expr(*index, next + fresh_expr(*array), core)),
            ),
            ..e
        },
        ExprKindView::Lit(_) => e,
        ExprKindView::Range(start, step, end) => ExprView {
            kind: ExprKindView::Range(
                lower_opt_expr(start, next, core),
                lower_opt_expr(step, next + fresh_opt_expr(start), core),
                lower_opt_expr(end, next + fresh_opt_expr(start) + fresh_opt_expr(step), core),
            ),
            ..e
        },
        ExprKindView::Repeat(body, until, fixup) => repeat_expansion(
            lower_block(body, next, core),
            lower_expr(*until, next + fresh_block(body), core),
            lower_opt_block(fixup, next + fresh_block(body) + fresh_expr(*until), core),
            e.span,
            next + fresh_block(body) + fresh_expr(*until) + fresh_opt_block(fixup),
        ),
        ExprKindView::Return(value) => ExprView {
            kind: ExprKindView::Return(Box::new(lower_expr(*value, next, core))),
            ..e
        },
        ExprKindView::String(components) => ExprView {
            kind: ExprKindView::String(lower_components(components, next, core)),
            ..e
        },
        ExprKindView::Tuple(items) => ExprView {
            kind: ExprKindView::Tuple(lower_exprs(items, next, core)),
            ..e
        },
        ExprKindView::UnOp(op, operand) => ExprView {
            kind: ExprKindView::UnOp(op, Box::new(lower_expr(*operand, next, core))),
            ..e
        },
        ExprKindView::Var(_, _) => e,
        ExprKindView::While(cond, body) => ExprView {
            kind: ExprKindView::While(
                Box::new(lower_expr(*cond, next, core)),
                lower_block(body, next + fresh_expr(*cond), core),
            ),
            ..e
        },
    }
}

/// An expression that may be absent, after the pass.
pub open spec fn lower_opt_expr(e: Option<Box<ExprView>>, next: nat, core: Seq<TermView>) -> Option<
    Box<ExprView>,
>
    decreases e,
{
    match e {
        Some(e) => Some(Box::new(lower_expr(*e, next, core))),
        None => None,
    }
}

/// A block that may be absent, after the pass.
pub open spec fn lower_opt_block(block: Option<BlockView>, next: nat, core: Seq<TermView>) -> Option<
    BlockView,
>
    decreases block,
{
    match block {
        Some(block) => Some(lower_block(block, next, core)),
        None => None,
    }
}

/// A list of expressions after the pass: each is lowered with the first
/// identity that those before it left free.
pub open spec fn lower_exprs(exprs: Seq<ExprView>, next: nat, core: Seq<TermView>) -> Seq<ExprView>
    decreases exprs,
{
    Seq::new(
        exprs.len(),
        |i: int|
            if 0 <= i < exprs.len() {
                lower_expr(exprs[i], next + total_before(expr_counts(exprs), i), core)
            } else {
                arbitrary()
            },
    )
}

/// A piece of an interpolated string after the pass.
pub open spec fn lower_component(
    component: StringComponentView,
    next: nat,
    core: Seq<TermView>,
) -> StringComponentView
    decreases component,
{
    match component {
        StringComponentView::Expr(e) => StringComponentView::Expr(lower_expr(e, next, core)),
        StringComponentView::Lit(_) => component,
    }
}

/// The pieces of an interpolated string after the pass.
pub open spec fn lower_components(
    components: Seq<StringComponentView>,
    next: nat,
    core: Seq<TermView>,
) -> Seq<StringComponentView>
    decreases components,
{
    Seq::new(
        components.len(),
        |i: int|
            if 0 <= i < components.len() {
                lower_component(
                    components[i],
                    next + total_before(component_counts(components), i),
                    core,
                )
            } else {
                arbitrary()
            },
    )
}

/// A statement after the pass.
pub open spec fn lower_stmt(stmt: StmtView, next: nat, core: Seq<TermView>) -> StmtView
    decreases stmt,
{
    match stmt.kind {
        StmtKindView::Expr(e) => StmtView {
            kind: StmtKindView::Expr(lower_expr(e, next, core)),
            ..stmt
        },
        StmtKindView::Item(_) => stmt,
        StmtKindView::Local(mutability, pat, e) => StmtView {
            kind: StmtKindView::Local(mutability, pat, lower_expr(e, next, core)),
            ..stmt
        },
        StmtKindView::Semi(e) => StmtView {
            kind: StmtKindView::Semi(lower_expr(e, next, core)),
            ..stmt
        },
    }
}

/// A list of statements after the pass: each is lowered with the first
/// identity that those before it left free.
pub open spec fn lower_stmts(stmts: Seq<StmtView>, next: nat, core: Seq<TermView>) -> Seq<StmtView>
    decreases stmts,
{
    Seq::new(
        stmts.len(),
        |i: int|
            if 0 <= i < stmts.len() {
                lower_stmt(stmts[i], next + total_before(stmt_counts(stmts), i), core)
            } else {
                arbitrary()
            },
    )
}

/// A block after the pass.
pub open spec fn lower_block(block: BlockView, next: nat, core: Seq<TermView>) -> BlockView
    decreases block,
{
    BlockView { stmts: lower_stmts(block.stmts, next, core), ..block }
}

/// How many identities lowering a specialization uses up.
pub open spec fn fresh_spec(spec: SpecDeclView) -> nat {
    match spec.body {
        SpecBodyView::Gen(_) => 0,
        SpecBodyView::Impl(_, block) => fresh_block(block),
    }
}

/// How many identities lowering a specialization that may be absent uses up.
pub open spec fn fresh_opt_spec(spec: Option<SpecDeclView>) -> nat {
    match spec {
        Some(spec) => fresh_spec(spec),
        None => 0,
    }
}

/// How many identities lowering a callable uses up.
pub open spec fn fresh_callable(decl: CallableDeclView) -> nat {
    fresh_spec(decl.body) + fresh_opt_spec(decl.adj) + fresh_opt_spec(decl.ctl) + fresh_opt_spec(
        decl.ctl_adj,
    )
}

/// How many identities lowering an item uses up.
pub open spec fn fresh_item(item: ItemView) -> nat {
    match item.kind {
        ItemKindView::Callable(decl) => fresh_callable(decl),
        ItemKindView::Namespace(_, _) => 0,
    }
}

/// How many identities lowering each of a list of items uses up.
pub open spec fn item_counts(items: Seq<ItemView>) -> Seq<nat> {
    Seq::new(items.len(), |i: int| fresh_item(items[i]))
}

/// How many identities lowering a list of items uses up.
pub open spec fn fresh_items(items: Seq<ItemView>) -> nat {
    total(item_counts(items))
}

/// How many identities lowering a package's first expression uses up.
pub open spec fn fresh_entry(entry: Option<ExprView>) -> nat {
    match entry {
        Some(e) => fresh_expr(e),
        None => 0,
    }
}

/// How many identities lowering a package uses up.
pub open spec fn fresh_package(package: PackageView) -> nat {
    fresh_items(package.items) + fresh_entry(package.entry)
}

/// Whether a specialization can be lowered.
pub open spec fn lowerable_spec(spec: SpecDeclView, core: Seq<TermView>) -> bool {
    match spec.body {
        SpecBodyView::Gen(_) => true,
        SpecBodyView::Impl(_, block) => lowerable_block(block, core),
    }
}

/// Whether a specialization that may be absent can be lowered.
pub open spec fn lowerable_opt_spec(spec: Option<SpecDeclView>, core: Seq<TermView>) -> bool {
    match spec {
        Some(spec) => lowerable_spec(spec, core),
        None => true,
    }
}

/// Whether a callable can be lowered.
pub open spec fn lowerable_callable(decl: CallableDeclView, core: Seq<TermView>) -> bool {
    &&& lowerable_spec(decl.body, core)
    &&& lowerable_opt_spec(decl.adj, core)
    &&& lowerable_opt_spec(decl.ctl, core)
    &&& lowerable_opt_spec(decl.ctl_adj, core)
}

/// Whether an item can be lowered.
pub open spec fn lowerable_item(item: ItemView, core: Seq<TermView>) -> bool {
    match item.kind {
        ItemKindView::Callable(decl) => lowerable_callable(decl, core),
        ItemKindView::Namespace(_, _) => true,
    }
}

/// Whether each of a list of items can be lowered.
pub open spec fn lowerable_items(items: Seq<ItemView>, core: Seq<TermView>) -> bool {
    forall|i: int| 0 <= i < items.len() ==> lowerable_item(#[trigger] items[i], core)
}

/// Whether a package's first expression can be lowered.
pub open spec fn lowerable_entry(entry: Option<ExprView>, core: Seq<TermView>) -> bool {
    match entry {
        Some(e) => lowerable_expr(e, core),
        None => true,
    }
}

/// Whether the pass can be asked to lower a package: every `for` in it
/// loops over an array or a range, and every `repeat` in it has a Boolean
/// condition.
pub open spec fn lowerable_package(package: PackageView, core: Seq<TermView>) -> bool {
    lowerable_items(package.items, core) && lowerable_entry(package.entry, core)
}

/// A specialization after the pass.
pub open spec fn lower_spec(spec: SpecDeclView, next: nat, core: Seq<TermView>) -> SpecDeclView {
    match spec.body {
        SpecBodyView::Gen(_) => spec,
        SpecBodyView::Impl(pat, block) => SpecDeclView {
            body: SpecBodyView::Impl(pat, lower_block(block, next, core)),
            ..spec
        },
    }
}

/// A specialization that may be absent, after the pass.
pub open spec fn lower_opt_spec(spec: Option<SpecDeclView>, next: nat, core: Seq<TermView>) -> Option<
    SpecDeclView,
> {
    match spec {
        Some(spec) => Some(lower_spec(spec, next, core)),
        None => None,
    }
}

/// A callable after the pass: its body is lowered first, then its adjoint,
/// its controlled and its controlled adjoint specialization.
pub open spec fn lower_callable(
    decl: CallableDeclView,
    next: nat,
    core: Seq<TermView>,
) -> CallableDeclView {
    let after_body = next + fresh_spec(decl.body);
    let after_adj = after_body + fresh_opt_spec(decl.adj);
    let after_ctl = after_adj + fresh_opt_spec(decl.ctl);
    CallableDeclView {
        body: lower_spec(decl.body, next, core),
        adj: lower_opt_spec(decl.adj, after_body, core),
        ctl: lower_opt_spec(decl.ctl, after_adj, core),
        ctl_adj: lower_opt_spec(decl.ctl_adj, after_ctl, core),
        ..decl
    }
}

/// An item after the pass.
pub open spec fn lower_item(item: ItemView, next: nat, core: Seq<TermView>) -> ItemView {
    match item.kind {
        ItemKindView::Callable(decl) => ItemView {
            kind: ItemKindView::Callable(lower_callable(decl, next, core)),
            ..item
        },
        ItemKindView::Namespace(_, _) => item,
    }
}

/// A list of items after the pass: each is lowered with the first identity
/// that those before it left free.
pub open spec fn lower_items(items: Seq<ItemView>, next: nat, core: Seq<TermView>) -> Seq<ItemView> {
    Seq::new(
        items.len(),
        |i: int| lower_item(items[i], next + total_before(item_counts(items), i), core),
    )
}

/// A package's first expression after the pass.
pub open spec fn lower_entry(entry: Option<ExprView>, next: nat, core: Seq<TermView>) -> Option<
    ExprView,
> {
    match entry {
        Some(e) => Some(lower_expr(e, next, core)),
        None => None,
    }
}

/// A package after the pass: its items are lowered in order, then its first
/// expression.
pub open spec fn lower_package(package: PackageView, next: nat, core: Seq<TermView>) -> PackageView {
    PackageView {
        items: lower_items(package.items, next, core),
        entry: lower_entry(package.entry, next + fresh_items(package.items), core),
    }
}

/// Lowering keeps an expression's span, and gives it the type that
/// `lowered_ty` tells.
pub proof fn lemma_lowered_shape(e: ExprView, next: nat, core: Seq<TermView>)
    requires
        lowerable_expr(e, core),
    ensures
        lower_expr(e, next, core).span == e.span,
        lower_expr(e, next, core).ty == lowered_ty(e),
{
    reveal(for_array_expansion);
    reveal(for_range_expansion);
    reveal(repeat_expansion);
    reveal_with_fuel(lower_expr, 1);
    reveal_with_fuel(lowerable_expr, 1);
}

/// The sum of the first counts grows by each further count, and never
/// passes the sum of all.
pub proof fn lemma_total_before(counts: Seq<nat>, count: int)
    requires
        0 <= count <= counts.len(),
    ensures
        total_before(counts, 0) == 0,
        total_before(counts, counts.len() as int) == total(counts),
        total_before(counts, count) <= total(counts),
        count < counts.len() ==> total_before(counts, count + 1) == total_before(counts, count)
            + counts[count],
    decreases counts.len() - count,
{
    reveal(total_before);
    assert(counts.take(0).len() == 0);
    assert(counts.take(counts.len() as int) =~= counts);
    if count < counts.len() {
        assert(counts.take(count + 1).drop_last() =~= counts.take(count));
        assert(counts.take(count + 1).last() == counts[count]);
        lemma_total_before(counts, count + 1);
    }
}

} // verus!
