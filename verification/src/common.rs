//! What the passes share: fresh local names and references to the core
//! library.

use vstd::prelude::*;
use crate::assigner::{Assigner, NodeId, PLACEHOLDER};
use crate::hir::{
    Expr, ExprKind, ExprKindView, ExprView, Ident, IdentView, Mutability, Pat, PatKind, PatKindView,
    PatView, Res, Stmt, StmtKind, StmtKindView, StmtView,
};
use crate::global::{instantiate, resolve, Table, TermView};
use crate::span::Span;
use crate::ty::{args_view, GenericArg, GenericArgView, Ty, TyView};

verus! {

/// The character for a decimal digit.
pub open spec fn digit(d: nat) -> char {
    if d == 0 {
        '0'
    } else if d == 1 {
        '1'
    } else if d == 2 {
        '2'
    } else if d == 3 {
        '3'
    } else if d == 4 {
        '4'
    } else if d == 5 {
        '5'
    } else if d == 6 {
        '6'
    } else if d == 7 {
        '7'
    } else if d == 8 {
        '8'
    } else {
        '9'
    }
}

/// A number in decimal, without leading zeros.
pub open spec fn decimal(n: nat) -> Seq<char>
    decreases n,
{
    if n < 10 {
        seq![digit(n)]
    } else {
        decimal(n / 10).push(digit(n % 10))
    }
}

/// The name of a fresh local: its role, an underscore, and its identity in
/// decimal.
pub open spec fn fresh_name(role: Seq<char>, id: NodeId) -> Seq<char> {
    role + seq!['_'] + decimal(id.0 as nat)
}

fn digit_str(d: u32) -> (r: &'static str)
    requires
        d < 10,
    ensures
        r@ == seq![digit(d as nat)],
{
    proof {
        reveal_strlit("0");
        reveal_strlit("1");
        reveal_strlit("2");
        reveal_strlit("3");
        reveal_strlit("4");
        reveal_strlit("5");
        reveal_strlit("6");
        reveal_strlit("7");
        reveal_strlit("8");
        reveal_strlit("9");
    }
    let r = if d == 0 {
        "0"
    } else if d == 1 {
        "1"
    } else if d == 2 {
        "2"
    } else if d == 3 {
        "3"
    } else if d == 4 {
        "4"
    } else if d == 5 {
        "5"
    } else if d == 6 {
        "6"
    } else if d == 7 {
        "7"
    } else if d == 8 {
        "8"
    } else {
        "9"
    };
    assert(r@ =~= seq![digit(d as nat)]);
    r
}

/// Appends `n` in decimal to `text`.
pub fn push_decimal(text: &mut String, n: u32)
    ensures
        final(text)@ == old(text)@ + decimal(n as nat),
    decreases n,
{
    if n >= 10 {
        push_decimal(text, n / 10);
    }
    text.append(digit_str(n % 10));
    assert(text@ =~= old(text)@ + decimal(n as nat));
}

/// A fresh local variable: its identity, where it is said to stand, its
/// type and its name.
#[derive(Debug)]
pub struct IdentTemplate {
    pub id: NodeId,
    pub span: Span,
    pub ty: Ty,
    pub name: String,
}

/// What an `IdentTemplate` stands for.
pub struct IdentTemplateView {
    pub id: NodeId,
    pub span: Span,
    pub ty: TyView,
    pub name: Seq<char>,
}

/// The fresh local with the given role and identity.
pub open spec fn template(role: Seq<char>, id: NodeId, ty: TyView, span: Span) -> IdentTemplateView {
    IdentTemplateView { id, span, ty, name: fresh_name(role, id) }
}

impl IdentTemplateView {
    /// The name, as the binding occurrence of the local.
    pub open spec fn ident(self) -> IdentView {
        IdentView { id: self.id, span: self.span, name: self.name }
    }

    /// The pattern that binds the local.
    pub open spec fn pat(self) -> PatView {
        PatView {
            id: NodeId(PLACEHOLDER),
            span: self.span,
            ty: self.ty,
            kind: PatKindView::Bind(self.ident()),
        }
    }

    /// An expression that reads the local.
    pub open spec fn local_ref(self) -> ExprView {
        ExprView {
            id: NodeId(PLACEHOLDER),
            span: self.span,
            ty: self.ty,
            kind: ExprKindView::Var(Res::Local(self.id), Seq::empty()),
        }
    }

    /// The statement that declares the local with `init` as its value.
    pub open spec fn init(self, mutability: Mutability, init: ExprView) -> StmtView {
        StmtView {
            id: NodeId(PLACEHOLDER),
            span: self.span,
            kind: StmtKindView::Local(mutability, self.pat(), init),
        }
    }
}

impl IdentTemplate {
    pub open spec fn view(&self) -> IdentTemplateView {
        IdentTemplateView { id: self.id, span: self.span, ty: self.ty@, name: self.name@ }
    }

    /// A fresh local for `role`, with the next identity of `assigner`.
    pub fn new(assigner: &mut Assigner, role: &str, ty: Ty, span: Span) -> (r: IdentTemplate)
        requires
            old(assigner)@ < PLACEHOLDER,
        ensures
            r@ == template(role@, NodeId(old(assigner)@ as u32), ty@, span),
            final(assigner)@ == old(assigner)@ + 1,
    {
        let id = assigner.next_id();
        let mut name = String::from_str(role);
        name.append("_");
        proof {
            reveal_strlit("_");
            assert("_"@ =~= seq!['_']);
        }
        push_decimal(&mut name, id.0);
        IdentTemplate { id, span, ty, name }
    }

    /// The pattern that binds the local.
    pub fn gen_pat(&self) -> (r: Pat)
        ensures
            r@ == self@.pat(),
    {
        Pat {
            id: NodeId::default(),
            span: self.span,
            ty: self.ty.clone(),
            kind: PatKind::Bind(Ident { id: self.id, span: self.span, name: self.name.clone() }),
        }
    }

    /// An expression that reads the local.
    pub fn gen_local_ref(&self) -> (r: Expr)
        ensures
            r@ == self@.local_ref(),
    {
        let args: Vec<GenericArg> = Vec::new();
        assert(crate::ty::args_view(args@) =~= Seq::empty());
        Expr {
            id: NodeId::default(),
            span: self.span,
            ty: self.ty.clone(),
            kind: ExprKind::Var(Res::Local(self.id), args),
        }
    }

    /// The statement that declares the local with `init` as its value.
    pub fn gen_id_init(&self, mutability: Mutability, init: Expr) -> (r: Stmt)
        ensures
            r@ == self@.init(mutability, init@),
    {
        Stmt {
            id: NodeId::default(),
            span: self.span,
            kind: StmtKind::Local(mutability, self.gen_pat(), init),
        }
    }
}

/// A reference to the callable of the core library with the given namespace
/// and name, at the given generic arguments: there is one where the table
/// resolves the name and its scheme fits the arguments.
pub open spec fn core_ref(
    core: Seq<TermView>,
    namespace: Seq<char>,
    name: Seq<char>,
    generics: Seq<GenericArgView>,
    span: Span,
) -> Option<ExprView> {
    match resolve(core, namespace, name) {
        Some(term) => match instantiate(term.scheme, generics) {
            Some(ty) => Some(
                ExprView {
                    id: NodeId(PLACEHOLDER),
                    span,
                    ty,
                    kind: ExprKindView::Var(Res::Item(term.id), generics),
                },
            ),
            None => None,
        },
        None => None,
    }
}

/// Builds the reference that `core_ref` describes; `None` where there is
/// none.
pub fn create_gen_core_ref(
    core: &Table,
    namespace: &str,
    name: &str,
    generics: Vec<GenericArg>,
    span: Span,
) -> (r: Option<Expr>)
    ensures
        match core_ref(core@, namespace@, name@, args_view(generics@), span) {
            Some(expr) => r.is_some() && r.unwrap()@ == expr,
            None => r.is_none(),
        },
{
    match core.resolve_term(namespace, name) {
        Some(term) => match term.scheme.instantiate(&generics) {
            Some(ty) => Some(
                Expr {
                    id: NodeId::default(),
                    span,
                    ty,
                    kind: ExprKind::Var(Res::Item(term.id), generics),
                },
            ),
            None => None,
        },
        None => None,
    }
}

} // verus!
