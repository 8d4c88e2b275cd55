//! The pieces of the syntax tree that the item parser builds.

use vstd::prelude::*;
use crate::assigner::NodeId;
use crate::hir::SpecGen;
use crate::parse::scan::TokenKind;
use crate::span::Span;

verus! {

/// A name, as it stands in the source.
#[derive(Debug)]
pub struct Ident {
    pub id: NodeId,
    pub span: Span,
    pub name: Vec<u8>,
}

/// What an `Ident` stands for.
pub struct IdentView {
    pub id: NodeId,
    pub span: Span,
    pub name: Seq<u8>,
}

impl Ident {
    pub open spec fn view(&self) -> IdentView {
        IdentView { id: self.id, span: self.span, name: self.name@ }
    }
}

/// The view of a name that may be absent.
pub open spec fn opt_ident_view(name: Option<Ident>) -> Option<IdentView> {
    match name {
        Some(name) => Some(name@),
        None => None,
    }
}

/// A name with the namespace that qualifies it, where it has one.
#[derive(Debug)]
pub struct Path {
    pub id: NodeId,
    pub span: Span,
    pub namespace: Option<Ident>,
    pub name: Ident,
}

/// What a `Path` stands for.
pub struct PathView {
    pub id: NodeId,
    pub span: Span,
    pub namespace: Option<IdentView>,
    pub name: IdentView,
}

impl Path {
    pub open spec fn view(&self) -> PathView {
        PathView {
            id: self.id,
            span: self.span,
            namespace: opt_ident_view(self.namespace),
            name: self.name@,
        }
    }
}

/// The forms of a type as written.
#[derive(Debug)]
pub enum TyKind {
    /// An array of the item type.
    Array(Box<Ty>),
    /// A type that was left out.
    Hole,
    /// A type in parentheses.
    Paren(Box<Ty>),
    /// A named type.
    Path(Path),
    /// A tuple of types.
    Tuple(Vec<Ty>),
}

/// A type as written.
#[derive(Debug)]
pub struct Ty {
    pub id: NodeId,
    pub span: Span,
    pub kind: TyKind,
}

/// Who can see an item.
#[derive(Clone, Copy, Debug, PartialEq, Eq, Structural)]
pub enum VisibilityKind {
    Public,
    Internal,
}

/// A visibility as written.
#[derive(Clone, Copy, Debug, PartialEq, Eq, Structural)]
pub struct Visibility {
    pub id: NodeId,
    pub span: Span,
    pub kind: VisibilityKind,
}

/// The kinds of item that the parsers here build.
#[derive(Debug)]
pub enum ItemKind {
    /// Not an item: what stands where one could not be read.
    Invalid,
    /// The opening of a namespace, under another name where one is given.
    Open(Ident, Option<Ident>),
}

/// What an `ItemKind` stands for.
pub enum ItemKindView {
    Invalid,
    Open(IdentView, Option<IdentView>),
}

impl ItemKind {
    pub open spec fn view(&self) -> ItemKindView {
        match self {
            ItemKind::Invalid => ItemKindView::Invalid,
            ItemKind::Open(name, alias) => ItemKindView::Open(name@, opt_ident_view(*alias)),
        }
    }
}

/// What went wrong in parsing.
#[derive(Clone, Copy, Debug, PartialEq, Eq)]
pub enum ErrorKind {
    /// The first token was expected, the second was found.
    Token(TokenKind, TokenKind, Span),
    /// The named rule expected something else than the token found.
    Rule(&'static str, TokenKind, Span),
    /// The second kind of thing cannot be read as the first.
    Convert(&'static str, &'static str, Span),
}

/// A parse error.
#[derive(Clone, Copy, Debug, PartialEq, Eq)]
pub struct Error(pub ErrorKind);

/// What an `ErrorKind` stands for.
pub enum ErrorKindView {
    Token(TokenKind, TokenKind, Span),
    Rule(Seq<char>, TokenKind, Span),
    Convert(Seq<char>, Seq<char>, Span),
}

impl Error {
    pub open spec fn view(&self) -> ErrorKindView {
        match self.0 {
            ErrorKind::Token(expected, found, span) => ErrorKindView::Token(expected, found, span),
            ErrorKind::Rule(rule, found, span) => ErrorKindView::Rule(rule@, found, span),
            ErrorKind::Convert(to, from, span) => ErrorKindView::Convert(to@, from@, span),
        }
    }
}

/// The generator that a keyword names, where it names one.
pub open spec fn spec_gen_of(kind: TokenKind) -> Option<SpecGen> {
    match kind {
        TokenKind::Keyword(crate::parse::scan::Keyword::Auto) => Some(SpecGen::Auto),
        TokenKind::Keyword(crate::parse::scan::Keyword::Distribute) => Some(SpecGen::Distribute),
        TokenKind::Keyword(crate::parse::scan::Keyword::Intrinsic) => Some(SpecGen::Intrinsic),
        TokenKind::Keyword(crate::parse::scan::Keyword::Invert) => Some(SpecGen::Invert),
        TokenKind::Keyword(crate::parse::scan::Keyword::Slf) => Some(SpecGen::Slf),
        _ => None,
    }
}

} // verus!
