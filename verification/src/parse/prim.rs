//! The smallest parsers.

use vstd::prelude::*;
use crate::assigner::{NodeId, PLACEHOLDER};
use crate::parse::ast::{Error, ErrorKind, ErrorKindView, Ident, IdentView, Path, PathView};
use crate::parse::scan::{lexeme, token_at, Scanner, Token, TokenKind};
use crate::span::Span;

verus! {

/// Whether two token kinds are the same.
pub fn same_kind(a: TokenKind, b: TokenKind) -> (r: bool)
    ensures
        r == (a == b),
{
    a == b
}

/// Takes the token under the cursor if it is of the given kind; otherwise
/// says which token was found in its place, and leaves the cursor.
pub fn token(s: &mut Scanner, kind: TokenKind) -> (r: Result<(), Error>)
    requires
        old(s).wf(),
    ensures
        final(s).wf(),
        final(s).input() == old(s).input(),
        final(s).tokens() == old(s).tokens(),
        old(s).spec_peek().kind == kind ==> r is Ok && final(s).spec_at(
            old(s),
            if kind == TokenKind::Eof {
                0
            } else {
                1
            },
        ),
        old(s).spec_peek().kind != kind ==> *final(s) == *old(s) && (r matches Err(e) && e@
            == ErrorKindView::Token(kind, old(s).spec_peek().kind, old(s).spec_peek().span)),
{
    let peek = s.peek();
    if same_kind(peek.kind, kind) {
        s.advance();
        Ok(())
    } else {
        Err(Error(ErrorKind::Token(kind, peek.kind, peek.span)))
    }
}

/// The name that a token spells.
pub open spec fn ident_of(input: Seq<u8>, token: Token) -> IdentView {
    IdentView { id: NodeId(PLACEHOLDER), span: token.span, name: lexeme(input, token.span) }
}

/// Takes the name under the cursor; where another token stands there, says
/// so and leaves the cursor.
pub fn ident(s: &mut Scanner) -> (r: Result<Ident, Error>)
    requires
        old(s).wf(),
    ensures
        final(s).wf(),
        final(s).input() == old(s).input(),
        final(s).tokens() == old(s).tokens(),
        old(s).spec_peek().kind == TokenKind::Ident ==> final(s).spec_at(old(s), 1) && (r matches Ok(
            name,
        ) && name@ == ident_of(old(s).input(), old(s).spec_peek())),
        old(s).spec_peek().kind != TokenKind::Ident ==> *final(s) == *old(s) && (r matches Err(e)
            && e@ == ErrorKindView::Rule(
            "identifier"@,
            old(s).spec_peek().kind,
            old(s).spec_peek().span,
        )),
{
    let peek = s.peek();
    if same_kind(peek.kind, TokenKind::Ident) {
        let name = s.read();
        s.advance();
        Ok(Ident { id: NodeId::default(), span: peek.span, name })
    } else {
        Err(Error(ErrorKind::Rule("identifier", peek.kind, peek.span)))
    }
}

/// How many times a dot and a name follow one another from the token at
/// `from`.
pub open spec fn links(tokens: Seq<Token>, from: int) -> nat
    decreases tokens.len() - from,
{
    if 0 <= from && from + 1 < tokens.len() && tokens[from].kind == TokenKind::Dot && tokens[from
        + 1].kind == TokenKind::Ident {
        1 + links(tokens, from + 2)
    } else {
        0
    }
}

/// The first `count` of the names that stand at every other token from
/// `from`, joined by dots.
pub open spec fn dotted(input: Seq<u8>, tokens: Seq<Token>, from: int, count: nat) -> Seq<u8>
    decreases count,
{
    if count == 0 {
        Seq::empty()
    } else if count == 1 {
        lexeme(input, tokens[from].span)
    } else {
        dotted(input, tokens, from, (count - 1) as nat).push(0x2e) + lexeme(
            input,
            tokens[from + 2 * (count - 1)].span,
        )
    }
}

/// What reading a path from the token at `from` gives, and how many tokens
/// it takes.
///
/// A path is a name, then dots and names in turn. The last name is the
/// path's name; the names before it, joined by dots, are its namespace. A
/// dot that no name follows is taken, and then the missing name is told.
pub open spec fn path_at(input: Seq<u8>, tokens: Seq<Token>, from: int) -> (
    Result<PathView, ErrorKindView>,
    nat,
) {
    let first = token_at(tokens, input.len(), from);
    if first.kind != TokenKind::Ident {
        (Err(ErrorKindView::Rule("identifier"@, first.kind, first.span)), 0)
    } else {
        let more = links(tokens, from + 1);
        let last = from + 2 * more;
        let after = token_at(tokens, input.len(), last + 1);
        if after.kind == TokenKind::Dot {
            let missing = token_at(tokens, input.len(), last + 2);
            (
                Err(ErrorKindView::Rule("identifier"@, missing.kind, missing.span)),
                (2 * more + 2) as nat,
            )
        } else {
            (
                Ok(
                    PathView {
                        id: NodeId(PLACEHOLDER),
                        span: Span { lo: first.span.lo, hi: tokens[last].span.hi },
                        namespace: if more == 0 {
                            None
                        } else {
                            Some(
                                IdentView {
                                    id: NodeId(PLACEHOLDER),
                                    span: Span { lo: first.span.lo, hi: tokens[last - 2].span.hi },
                                    name: dotted(input, tokens, from, more),
                                },
                            )
                        },
                        name: ident_of(input, tokens[last]),
                    },
                ),
                (2 * more + 1) as nat,
            )
        }
    }
}

/// The view of a path or of the error in its place.
pub open spec fn path_result_view(r: Result<Path, Error>) -> Result<PathView, ErrorKindView> {
    match r {
        Ok(path) => Ok(path@),
        Err(e) => Err(e@),
    }
}

/// The links from a token on are those from two tokens further on and the
/// one between.
proof fn lemma_links_split(tokens: Seq<Token>, from: int, count: nat)
    requires
        0 <= from,
        from + 2 * count <= tokens.len(),
        forall|j: int|
            0 <= j < count ==> (#[trigger] tokens[from + 2 * j]).kind == TokenKind::Dot && tokens[from
                + 2 * j + 1].kind == TokenKind::Ident,
    ensures
        links(tokens, from) == count + links(tokens, from + 2 * count),
    decreases count,
{
    if count > 0 {
        assert(tokens[from + 2 * 0].kind == TokenKind::Dot);
        assert forall|j: int| 0 <= j < count - 1 implies (#[trigger] tokens[from + 2 + 2 * j]).kind
            == TokenKind::Dot && tokens[from + 2 + 2 * j + 1].kind == TokenKind::Ident by {
            assert(tokens[from + 2 * (j + 1)].kind == TokenKind::Dot);
        }
        lemma_links_split(tokens, from + 2, (count - 1) as nat);
    }
}

/// Reads a path: a name, then dots and names in turn.
pub fn path(s: &mut Scanner) -> (r: Result<Path, Error>)
    requires
        old(s).wf(),
    ensures
        final(s).wf(),
        final(s).input() == old(s).input(),
        final(s).tokens() == old(s).tokens(),
        path_result_view(r) == path_at(old(s).input(), old(s).tokens(), old(s).pos() as int).0,
        final(s).spec_at(old(s), path_at(old(s).input(), old(s).tokens(), old(s).pos() as int).1),
{
    let ghost input = s.input();
    let ghost tokens = s.tokens();
    let ghost from = s.pos() as int;
    let lo = s.peek().span.lo;
    let first = match ident(s) {
        Ok(name) => name,
        Err(e) => {
            return Err(e);
        },
    };
    let mut qualifiers: usize = 0;
    let mut namespace: Vec<u8> = Vec::new();
    let mut namespace_hi: u32 = first.span.hi;
    let mut name = first;
    let ghost mut more: nat = 0;
    loop
        invariant
            s.wf(),
            s.input() == input,
            s.tokens() == tokens,
            input == old(s).input(),
            tokens == old(s).tokens(),
            from == old(s).pos(),
            0 <= from,
            from + 2 * more < tokens.len(),
            s.pos() == from + 2 * more + 1,
            s.offset() == tokens[from + 2 * more].span.hi,
            tokens[from].kind == TokenKind::Ident,
            lo == tokens[from].span.lo,
            forall|j: int|
                0 <= j < more ==> (#[trigger] tokens[from + 1 + 2 * j]).kind == TokenKind::Dot
                    && tokens[from + 1 + 2 * j + 1].kind == TokenKind::Ident,
            qualifiers == more,
            name@ == ident_of(input, tokens[from + 2 * more]),
            namespace@ == dotted(input, tokens, from, more),
            more > 0 ==> namespace_hi == tokens[from + 2 * more - 2].span.hi,
        ensures
            s.wf(),
            s.input() == input,
            s.tokens() == tokens,
            from + 2 * more < tokens.len(),
            s.pos() == from + 2 * more + 1,
            s.offset() == tokens[from + 2 * more].span.hi,
            qualifiers == more,
            name@ == ident_of(input, tokens[from + 2 * more]),
            namespace@ == dotted(input, tokens, from, more),
            more > 0 ==> namespace_hi == tokens[from + 2 * more - 2].span.hi,
            links(tokens, from + 1) == more,
            token_at(tokens, input.len(), from + 2 * more + 1).kind != TokenKind::Dot,
        decreases tokens.len() - s.pos(),
    {
        match token(s, TokenKind::Dot) {
            Ok(()) => {},
            Err(_) => {
                proof {
                    lemma_links_split(tokens, from + 1, more);
                }
                break ;
            },
        }
        let next = match ident(s) {
            Ok(next) => next,
            Err(e) => {
                proof {
                    lemma_links_split(tokens, from + 1, more);
                    assert(links(tokens, from + 1 + 2 * more) == 0);
                }
                return Err(e);
            },
        };
        assert(tokens[from + 1 + 2 * (more as int)].kind == TokenKind::Dot);
        if qualifiers > 0 {
            namespace.push(0x2e);
        }
        let ghost before = namespace@;
        let mut i: usize = 0;
        while i < name.name.len()
            invariant
                i <= name.name.len(),
                namespace@ == before + name.name@.subrange(0, i as int),
            decreases name.name.len() - i,
        {
            namespace.push(name.name[i]);
            assert(namespace@ =~= before + name.name@.subrange(0, i + 1));
            i += 1;
        }
        assert(name.name@.subrange(0, name.name.len() as int) =~= name.name@);
        namespace_hi = name.span.hi;
        name = next;
        assert(s.pos() <= s.tokens().len() <= usize::MAX);
        qualifiers = qualifiers + 1;
        proof {
            more = more + 1;
        }
    }
    let qualifier = if qualifiers == 0 {
        None
    } else {
        Some(Ident { id: NodeId::default(), span: Span { lo, hi: namespace_hi }, name: namespace })
    };
    Ok(Path { id: NodeId::default(), span: s.span(lo), namespace: qualifier, name })
}

/// A path as one name: its namespace and its name, joined by a dot.
pub open spec fn joined(path: PathView) -> IdentView {
    IdentView {
        id: path.id,
        span: path.span,
        name: match path.namespace {
            Some(namespace) => namespace.name.push(0x2e) + path.name.name,
            None => path.name.name,
        },
    }
}

/// What reading a dotted name from the token at `from` gives, and how many
/// tokens it takes.
pub open spec fn dot_ident_at(input: Seq<u8>, tokens: Seq<Token>, from: int) -> (
    Result<IdentView, ErrorKindView>,
    nat,
) {
    let (path, count) = path_at(input, tokens, from);
    match path {
        Ok(path) => (Ok(joined(path)), count),
        Err(e) => (Err(e), count),
    }
}

/// The view of a name or of the error in its place.
pub open spec fn ident_result_view(r: Result<Ident, Error>) -> Result<IdentView, ErrorKindView> {
    match r {
        Ok(name) => Ok(name@),
        Err(e) => Err(e@),
    }
}

/// Reads a path as one name: names joined by dots.
pub fn dot_ident(s: &mut Scanner) -> (r: Result<Ident, Error>)
    requires
        old(s).wf(),
    ensures
        final(s).wf(),
        final(s).input() == old(s).input(),
        final(s).tokens() == old(s).tokens(),
        ident_result_view(r) == dot_ident_at(
            old(s).input(),
            old(s).tokens(),
            old(s).pos() as int,
        ).0,
        final(s).spec_at(
            old(s),
            dot_ident_at(old(s).input(), old(s).tokens(), old(s).pos() as int).1,
        ),
{
    match path(s) {
        Ok(p) => {
            let Path { id, span, namespace, name } = p;
            match namespace {
                Some(namespace) => {
                    let mut text = namespace.name;
                    text.push(0x2e);
                    let ghost before = text@;
                    let mut i: usize = 0;
                    while i < name.name.len()
                        invariant
                            i <= name.name.len(),
                            text@ == before + name.name@.subrange(0, i as int),
                        decreases name.name.len() - i,
                    {
                        text.push(name.name[i]);
                        assert(text@ =~= before + name.name@.subrange(0, i + 1));
                        i += 1;
                    }
                    assert(name.name@.subrange(0, name.name.len() as int) =~= name.name@);
                    Ok(Ident { id, span, name: text })
                },
                None => Ok(Ident { id, span, name: name.name }),
            }
        },
        Err(e) => Err(e),
    }
}

} // verus!
