//! The typed tree that the passes work on, and what each node stands for.
//!
//! Every node type has a view: the same node with its lists as sequences and
//! its names as sequences of characters. Contracts speak of views.

use vstd::prelude::*;
use crate::assigner::NodeId;
use crate::ty::LocalItemId;
use crate::span::Span;
use crate::ty::{
    args_view, CallableKind, FunctorSetValue, GenericArg, GenericArgView, ItemId, Ty, TyView,
};

verus! {

/// What a name resolves to.
#[derive(Clone, Copy, Debug, PartialEq, Eq, Structural)]
pub enum Res {
    /// Nothing: resolution failed.
    Invalid,
    /// An item.
    Item(ItemId),
    /// A local binding, by the identity of its name.
    Local(NodeId),
}

/// Whether a binding can be assigned to again.
#[derive(Clone, Copy, Debug, PartialEq, Eq, Structural)]
pub enum Mutability {
    Immutable,
    Mutable,
}

/// A Pauli operator.
#[derive(Clone, Copy, Debug, PartialEq, Eq, Structural)]
pub enum Pauli {
    I,
    X,
    Y,
    Z,
}

/// A literal.
#[derive(Clone, Copy, Debug, PartialEq, Eq, Structural)]
pub enum Lit {
    Bool(bool),
    Int(i64),
    Pauli(Pauli),
}

/// A functor that an operator applies.
#[derive(Clone, Copy, Debug, PartialEq, Eq, Structural)]
pub enum Functor {
    Adj,
    Ctl,
}

/// A unary operator.
#[derive(Clone, Copy, Debug, PartialEq, Eq, Structural)]
pub enum UnOp {
    Functor(Functor),
    Neg,
    NotB,
    NotL,
    Pos,
    Unwrap,
}

/// A binary operator.
#[derive(Clone, Copy, Debug, PartialEq, Eq, Structural)]
pub enum BinOp {
    Add,
    AndB,
    AndL,
    Div,
    Eq,
    Exp,
    Gt,
    Gte,
    Lt,
    Lte,
    Mod,
    Mul,
    Neq,
    OrB,
    OrL,
    Shl,
    Shr,
    Sub,
    XorB,
}

/// A field that every value of a primitive type has.
#[derive(Clone, Copy, Debug, PartialEq, Eq, Structural)]
pub enum PrimField {
    /// Where a range starts.
    Start,
    /// By how much a range moves.
    Step,
    /// Where a range ends; the end is part of the range.
    End,
}

/// A field of a value.
#[derive(Debug)]
pub enum Field {
    /// A field of a user-defined type, by the indices that lead to it.
    Path(Vec<usize>),
    /// A field of a primitive type.
    Prim(PrimField),
}

/// What a `Field` stands for.
pub enum FieldView {
    Path(Seq<usize>),
    Prim(PrimField),
}

impl Field {
    pub open spec fn view(&self) -> FieldView {
        match self {
            Field::Path(indices) => FieldView::Path(indices@),
            Field::Prim(field) => FieldView::Prim(*field),
        }
    }
}

/// A name in the source, with an identity of its own.
#[derive(Debug)]
pub struct Ident {
    pub id: NodeId,
    pub span: Span,
    pub name: String,
}

/// What an `Ident` stands for.
pub struct IdentView {
    pub id: NodeId,
    pub span: Span,
    pub name: Seq<char>,
}

impl Ident {
    pub open spec fn view(&self) -> IdentView {
        IdentView { id: self.id, span: self.span, name: self.name@ }
    }
}

/// A pattern: how a value is taken apart into bindings.
#[derive(Debug)]
pub struct Pat {
    pub id: NodeId,
    pub span: Span,
    pub ty: Ty,
    pub kind: PatKind,
}

/// The forms of a pattern.
#[derive(Debug)]
pub enum PatKind {
    /// Binds the whole value to a name.
    Bind(Ident),
    /// Drops the value.
    Discard,
    /// Takes a tuple apart, item by item.
    Tuple(Vec<Pat>),
}

/// What a `Pat` stands for.
pub struct PatView {
    pub id: NodeId,
    pub span: Span,
    pub ty: TyView,
    pub kind: PatKindView,
}

/// What a `PatKind` stands for.
pub enum PatKindView {
    Bind(IdentView),
    Discard,
    Tuple(Seq<PatView>),
}

/// The views of a list of patterns, in order.
pub open spec fn pats_view(pats: Seq<Pat>) -> Seq<PatView>
    decreases pats,
{
    Seq::new(
        pats.len(),
        |i: int|
            if 0 <= i < pats.len() {
                pats[i].view()
            } else {
                arbitrary()
            },
    )
}

impl PatKind {
    pub open spec fn view(&self) -> PatKindView
        decreases self,
    {
        match self {
            PatKind::Bind(name) => PatKindView::Bind(name@),
            PatKind::Discard => PatKindView::Discard,
            PatKind::Tuple(items) => PatKindView::Tuple(pats_view(items@)),
        }
    }
}

impl Pat {
    pub open spec fn view(&self) -> PatView
        decreases self,
    {
        PatView { id: self.id, span: self.span, ty: self.ty@, kind: self.kind.view() }
    }
}

/// A block: statements in order.
#[derive(Debug)]
pub struct Block {
    pub id: NodeId,
    pub span: Span,
    pub ty: Ty,
    pub stmts: Vec<Stmt>,
}

/// A statement.
#[derive(Debug)]
pub struct Stmt {
    pub id: NodeId,
    pub span: Span,
    pub kind: StmtKind,
}

/// The forms of a statement.
#[derive(Debug)]
pub enum StmtKind {
    /// An expression whose value is the value of the block it ends.
    Expr(Expr),
    /// An item declared among the statements.
    Item(LocalItemId),
    /// A binding of a pattern to the value of an expression.
    Local(Mutability, Pat, Expr),
    /// An expression whose value is dropped.
    Semi(Expr),
}

/// An expression.
#[derive(Debug)]
pub struct Expr {
    pub id: NodeId,
    pub span: Span,
    pub ty: Ty,
    pub kind: ExprKind,
}

/// A piece of an interpolated string.
#[derive(Debug)]
pub enum StringComponent {
    /// An expression whose value is shown.
    Expr(Expr),
    /// Text that stands for itself.
    Lit(String),
}

/// The forms of an expression.
#[derive(Debug)]
pub enum ExprKind {
    /// An array of the given items.
    Array(Vec<Expr>),
    /// Assigns the second to the first.
    Assign(Box<Expr>, Box<Expr>),
    /// Applies the operator to both and assigns the result to the first.
    AssignOp(BinOp, Box<Expr>, Box<Expr>),
    /// A binary operator applied to two operands.
    BinOp(BinOp, Box<Expr>, Box<Expr>),
    /// A block.
    Block(Block),
    /// A call of the first with the second as its argument.
    Call(Box<Expr>, Box<Expr>),
    /// Fails with the given message.
    Fail(Box<Expr>),
    /// A field of a value.
    Field(Box<Expr>, Field),
    /// A loop over the items of an array or the steps of a range.
    For(Pat, Box<Expr>, Block),
    /// A conditional, with or without an alternative.
    If(Box<Expr>, Box<Expr>, Option<Box<Expr>>),
    /// The item of the first at the index, or the slice at the range, that
    /// the second gives.
    Index(Box<Expr>, Box<Expr>),
    /// A literal.
    Lit(Lit),
    /// A range from a start, by a step, to an end, each of which may be left
    /// out.
    Range(Option<Box<Expr>>, Option<Box<Expr>>, Option<Box<Expr>>),
    /// A loop that runs its body, then stops if the condition holds, and
    /// otherwise runs the fixup and starts over.
    Repeat(Block, Box<Expr>, Option<Block>),
    /// Returns the value from the callable.
    Return(Box<Expr>),
    /// An interpolated string.
    String(Vec<StringComponent>),
    /// A tuple of the given items.
    Tuple(Vec<Expr>),
    /// A unary operator applied to an operand.
    UnOp(UnOp, Box<Expr>),
    /// A name, with the arguments for its generic parameters.
    Var(Res, Vec<GenericArg>),
    /// A loop that tests its condition before every run of its body.
    While(Box<Expr>, Block),
}

/// What a `Block` stands for.
pub struct BlockView {
    pub id: NodeId,
    pub span: Span,
    pub ty: TyView,
    pub stmts: Seq<StmtView>,
}

/// What a `Stmt` stands for.
pub struct StmtView {
    pub id: NodeId,
    pub span: Span,
    pub kind: StmtKindView,
}

/// What a `StmtKind` stands for.
pub enum StmtKindView {
    Expr(ExprView),
    Item(LocalItemId),
    Local(Mutability, PatView, ExprView),
    Semi(ExprView),
}

/// What an `Expr` stands for.
pub struct ExprView {
    pub id: NodeId,
    pub span: Span,
    pub ty: TyView,
    pub kind: ExprKindView,
}

/// What a `StringComponent` stands for.
pub enum StringComponentView {
    Expr(ExprView),
    Lit(Seq<char>),
}

/// What an `ExprKind` stands for.
pub enum ExprKindView {
    Array(Seq<ExprView>),
    Assign(Box<ExprView>, Box<ExprView>),
    AssignOp(BinOp, Box<ExprView>, Box<ExprView>),
    BinOp(BinOp, Box<ExprView>, Box<ExprView>),
    Block(BlockView),
    Call(Box<ExprView>, Box<ExprView>),
    Fail(Box<ExprView>),
    Field(Box<ExprView>, FieldView),
    For(PatView, Box<ExprView>, BlockView),
    If(Box<ExprView>, Box<ExprView>, Option<Box<ExprView>>),
    Index(Box<ExprView>, Box<ExprView>),
    Lit(Lit),
    Range(Option<Box<ExprView>>, Option<Box<ExprView>>, Option<Box<ExprView>>),
    Repeat(BlockView, Box<ExprView>, Option<BlockView>),
    Return(Box<ExprView>),
    String(Seq<StringComponentView>),
    Tuple(Seq<ExprView>),
    UnOp(UnOp, Box<ExprView>),
    Var(Res, Seq<GenericArgView>),
    While(Box<ExprView>, BlockView),
}

/// The views of a list of expressions, in order.
pub open spec fn exprs_view(exprs: Seq<Expr>) -> Seq<ExprView>
    decreases exprs,
{
    Seq::new(
        exprs.len(),
        |i: int|
            if 0 <= i < exprs.len() {
                exprs[i].view()
            } else {
                arbitrary()
            },
    )
}

/// The views of a list of statements, in order.
pub open spec fn stmts_view(stmts: Seq<Stmt>) -> Seq<StmtView>
    decreases stmts,
{
    Seq::new(
        stmts.len(),
        |i: int|
            if 0 <= i < stmts.len() {
                stmts[i].view()
            } else {
                arbitrary()
            },
    )
}

/// The views of the pieces of an interpolated string, in order.
pub open spec fn components_view(components: Seq<StringComponent>) -> Seq<StringComponentView>
    decreases components,
{
    Seq::new(
        components.len(),
        |i: int|
            if 0 <= i < components.len() {
                components[i].view()
            } else {
                arbitrary()
            },
    )
}

/// The view of an expression that may be absent.
pub open spec fn opt_expr_view(expr: Option<Box<Expr>>) -> Option<Box<ExprView>>
    decreases expr,
{
    match expr {
        Some(e) => Some(Box::new(e.view())),
        None => None,
    }
}

/// The view of a block that may be absent.
pub open spec fn opt_block_view(block: Option<Block>) -> Option<BlockView>
    decreases block,
{
    match block {
        Some(b) => Some(b.view()),
        None => None,
    }
}

impl Block {
    pub open spec fn view(&self) -> BlockView
        decreases self,
    {
        BlockView { id: self.id, span: self.span, ty: self.ty@, stmts: stmts_view(self.stmts@) }
    }
}

impl Stmt {
    pub open spec fn view(&self) -> StmtView
        decreases self,
    {
        StmtView { id: self.id, span: self.span, kind: self.kind.view() }
    }
}

impl StmtKind {
    pub open spec fn view(&self) -> StmtKindView
        decreases self,
    {
        match self {
            StmtKind::Expr(e) => StmtKindView::Expr(e.view()),
            StmtKind::Item(item) => StmtKindView::Item(*item),
            StmtKind::Local(mutability, pat, e) => StmtKindView::Local(
                *mutability,
                pat@,
                e.view(),
            ),
            StmtKind::Semi(e) => StmtKindView::Semi(e.view()),
        }
    }
}

impl StringComponent {
    pub open spec fn view(&self) -> StringComponentView
        decreases self,
    {
        match self {
            StringComponent::Expr(e) => StringComponentView::Expr(e.view()),
            StringComponent::Lit(text) => StringComponentView::Lit(text@),
        }
    }
}

impl Expr {
    pub open spec fn view(&self) -> ExprView
        decreases self,
    {
        ExprView { id: self.id, span: self.span, ty: self.ty@, kind: self.kind.view() }
    }
}

impl ExprKind {
    pub open spec fn view(&self) -> ExprKindView
        decreases self,
    {
        match self {
            ExprKind::Array(items) => ExprKindView::Array(exprs_view(items@)),
            ExprKind::Assign(lhs, rhs) => ExprKindView::Assign(
                Box::new(lhs.view()),
                Box::new(rhs.view()),
            ),
            ExprKind::AssignOp(op, lhs, rhs) => ExprKindView::AssignOp(
                *op,
                Box::new(lhs.view()),
                Box::new(rhs.view()),
            ),
            ExprKind::BinOp(op, lhs, rhs) => ExprKindView::BinOp(
                *op,
                Box::new(lhs.view()),
                Box::new(rhs.view()),
            ),
            ExprKind::Block(block) => ExprKindView::Block(block.view()),
            ExprKind::Call(callee, arg) => ExprKindView::Call(
                Box::new(callee.view()),
                Box::new(arg.view()),
            ),
            ExprKind::Fail(message) => ExprKindView::Fail(Box::new(message.view())),
            ExprKind::Field(record, field) => ExprKindView::Field(
                Box::new(record.view()),
                field@,
            ),
            ExprKind::For(pat, iterable, body) => ExprKindView::For(
                pat@,
                Box::new(iterable.view()),
                body.view(),
            ),
            ExprKind::If(cond, body, otherwise) => ExprKindView::If(
                Box::new(cond.view()),
                Box::new(body.view()),
                opt_expr_view(*otherwise),
            ),
            ExprKind::Index(array, index) => ExprKindView::Index(
                Box::new(array.view()),
                Box::new(index.view()),
            ),
            ExprKind::Lit(lit) => ExprKindView::Lit(*lit),
            ExprKind::Range(start, step, end) => ExprKindView::Range(
                opt_expr_view(*start),
                opt_expr_view(*step),
                opt_expr_view(*end),
            ),
            ExprKind::Repeat(body, until, fixup) => ExprKindView::Repeat(
                body.view(),
                Box::new(until.view()),
                opt_block_view(*fixup),
            ),
            ExprKind::Return(value) => ExprKindView::Return(Box::new(value.view())),
            ExprKind::String(components) => ExprKindView::String(components_view(components@)),
            ExprKind::Tuple(items) => ExprKindView::Tuple(exprs_view(items@)),
            ExprKind::UnOp(op, operand) => ExprKindView::UnOp(*op, Box::new(operand.view())),
            ExprKind::Var(res, args) => ExprKindView::Var(*res, args_view(args@)),
            ExprKind::While(cond, body) => ExprKindView::While(
                Box::new(cond.view()),
                body.view(),
            ),
        }
    }
}

/// How a specialization is generated where it is not written out.
#[derive(Clone, Copy, Debug, PartialEq, Eq, Structural)]
pub enum SpecGen {
    Auto,
    Distribute,
    Intrinsic,
    Invert,
    Slf,
}

/// The body of a specialization.
#[derive(Debug)]
pub enum SpecBody {
    /// The specialization is generated.
    Gen(SpecGen),
    /// The specialization is written out: a pattern for the controls, where
    /// it takes any, and a block.
    Impl(Option<Pat>, Block),
}

/// A specialization of a callable.
#[derive(Debug)]
pub struct SpecDecl {
    pub id: NodeId,
    pub span: Span,
    pub body: SpecBody,
}

/// A callable: its signature, its body and its other specializations.
#[derive(Debug)]
pub struct CallableDecl {
    pub id: NodeId,
    pub span: Span,
    pub kind: CallableKind,
    pub name: Ident,
    pub input: Pat,
    pub output: Ty,
    pub functors: FunctorSetValue,
    pub body: SpecDecl,
    pub adj: Option<SpecDecl>,
    pub ctl: Option<SpecDecl>,
    pub ctl_adj: Option<SpecDecl>,
}

/// Who can see an item.
#[derive(Clone, Copy, Debug, PartialEq, Eq, Structural)]
pub enum Visibility {
    Public,
    Internal,
}

/// The forms of an item.
#[derive(Debug)]
pub enum ItemKind {
    /// A callable.
    Callable(CallableDecl),
    /// A namespace, with the items it holds.
    Namespace(Ident, Vec<LocalItemId>),
}

/// An item of a package.
#[derive(Debug)]
pub struct Item {
    pub id: LocalItemId,
    pub span: Span,
    pub parent: Option<LocalItemId>,
    pub visibility: Visibility,
    pub kind: ItemKind,
}

/// A package: its items, and the expression that it starts with, where it
/// has one.
#[derive(Debug)]
pub struct Package {
    pub items: Vec<Item>,
    pub entry: Option<Expr>,
}

/// What a `SpecBody` stands for.
pub enum SpecBodyView {
    Gen(SpecGen),
    Impl(Option<PatView>, BlockView),
}

/// What a `SpecDecl` stands for.
pub struct SpecDeclView {
    pub id: NodeId,
    pub span: Span,
    pub body: SpecBodyView,
}

/// What a `CallableDecl` stands for.
pub struct CallableDeclView {
    pub id: NodeId,
    pub span: Span,
    pub kind: CallableKind,
    pub name: IdentView,
    pub input: PatView,
    pub output: TyView,
    pub functors: FunctorSetValue,
    pub body: SpecDeclView,
    pub adj: Option<SpecDeclView>,
    pub ctl: Option<SpecDeclView>,
    pub ctl_adj: Option<SpecDeclView>,
}

/// What an `ItemKind` stands for.
pub enum ItemKindView {
    Callable(CallableDeclView),
    Namespace(IdentView, Seq<LocalItemId>),
}

/// What an `Item` stands for.
pub struct ItemView {
    pub id: LocalItemId,
    pub span: Span,
    pub parent: Option<LocalItemId>,
    pub visibility: Visibility,
    pub kind: ItemKindView,
}

/// What a `Package` stands for.
pub struct PackageView {
    pub items: Seq<ItemView>,
    pub entry: Option<ExprView>,
}

/// The view of a pattern that may be absent.
pub open spec fn opt_pat_view(pat: Option<Pat>) -> Option<PatView> {
    match pat {
        Some(pat) => Some(pat@),
        None => None,
    }
}

/// The view of a specialization that may be absent.
pub open spec fn opt_spec_view(spec: Option<SpecDecl>) -> Option<SpecDeclView> {
    match spec {
        Some(spec) => Some(spec@),
        None => None,
    }
}

/// The view of a package's first expression, which may be absent.
pub open spec fn entry_view(entry: Option<Expr>) -> Option<ExprView> {
    match entry {
        Some(e) => Some(e@),
        None => None,
    }
}

/// The views of a list of items, in order.
pub open spec fn items_view(items: Seq<Item>) -> Seq<ItemView> {
    Seq::new(items.len(), |i: int| items[i]@)
}

impl SpecBody {
    pub open spec fn view(&self) -> SpecBodyView {
        match self {
            SpecBody::Gen(gen) => SpecBodyView::Gen(*gen),
            SpecBody::Impl(pat, block) => SpecBodyView::Impl(opt_pat_view(*pat), block@),
        }
    }
}

impl SpecDecl {
    pub open spec fn view(&self) -> SpecDeclView {
        SpecDeclView { id: self.id, span: self.span, body: self.body@ }
    }
}

impl CallableDecl {
    pub open spec fn view(&self) -> CallableDeclView {
        CallableDeclView {
            id: self.id,
            span: self.span,
            kind: self.kind,
            name: self.name@,
            input: self.input@,
            output: self.output@,
            functors: self.functors,
            body: self.body@,
            adj: opt_spec_view(self.adj),
            ctl: opt_spec_view(self.ctl),
            ctl_adj: opt_spec_view(self.ctl_adj),
        }
    }
}

impl ItemKind {
    pub open spec fn view(&self) -> ItemKindView {
        match self {
            ItemKind::Callable(decl) => ItemKindView::Callable(decl@),
            ItemKind::Namespace(name, items) => ItemKindView::Namespace(name@, items@),
        }
    }
}

impl Item {
    pub open spec fn view(&self) -> ItemView {
        ItemView {
            id: self.id,
            span: self.span,
            parent: self.parent,
            visibility: self.visibility,
            kind: self.kind@,
        }
    }
}

impl Package {
    pub open spec fn view(&self) -> PackageView {
        PackageView { items: items_view(self.items@), entry: entry_view(self.entry) }
    }
}

} // verus!
