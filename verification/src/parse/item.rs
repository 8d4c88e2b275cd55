//! Items: the documentation that stands before them.

use vstd::prelude::*;
use crate::assigner::NodeId;
use crate::hir::SpecGen;
use crate::parse::ast::{
    spec_gen_of, Error, ErrorKind, ErrorKindView, Ident, IdentView, ItemKind, ItemKindView, Path,
    Ty, TyKind, Visibility, VisibilityKind,
};
use crate::parse::prim::{dot_ident, dot_ident_at, token};
use crate::parse::scan::token_at;
use crate::parse::scan::{lexeme, token_ok, tokens_ok, Keyword, Scanner, Token, TokenKind};

verus! {

/// How many documentation comments stand in a row from the token at `from`.
pub open spec fn doc_run(tokens: Seq<Token>, from: int) -> nat
    decreases tokens.len() - from,
{
    if 0 <= from < tokens.len() && tokens[from].kind == TokenKind::DocComment {
        1 + doc_run(tokens, from + 1)
    } else {
        0
    }
}

/// Whether a documentation comment has a space after its three slashes.
pub open spec fn has_space(comment: Seq<u8>) -> bool {
    comment.len() >= 4 && comment[0] == 0x2f && comment[1] == 0x2f && comment[2] == 0x2f
        && comment[3] == 0x20
}

/// How many bytes a documentation comment starts with that are no part of
/// its text: the three slashes, and the space after them if there is one.
pub open spec fn doc_prefix_len(comment: Seq<u8>) -> int {
    if has_space(comment) {
        4
    } else {
        3
    }
}

/// The text of a documentation comment.
pub open spec fn doc_text(comment: Seq<u8>) -> Seq<u8> {
    comment.skip(doc_prefix_len(comment))
}

/// The texts of the `count` documentation comments from the token at
/// `from`, one per line: a line feed stands before each text but the first,
/// and before none while all the texts so far are empty.
pub open spec fn doc_content(input: Seq<u8>, tokens: Seq<Token>, from: int, count: nat) -> Seq<u8>
    decreases count,
{
    if count == 0 {
        Seq::empty()
    } else {
        let before = doc_content(input, tokens, from, (count - 1) as nat);
        let text = doc_text(lexeme(input, tokens[from + count - 1].span));
        if before.len() > 0 {
            before.push(0x0a) + text
        } else {
            text
        }
    }
}

/// A run of documentation comments is as long as its first part and what
/// follows that part.
proof fn lemma_doc_run_split(tokens: Seq<Token>, from: int, count: nat)
    requires
        0 <= from,
        from + count <= tokens.len(),
        forall|j: int| from <= j < from + count ==> (#[trigger] tokens[j]).kind
            == TokenKind::DocComment,
    ensures
        doc_run(tokens, from) == count + doc_run(tokens, from + count),
    decreases count,
{
    if count > 0 {
        assert(tokens[from].kind == TokenKind::DocComment);
        lemma_doc_run_split(tokens, from + 1, (count - 1) as nat);
    }
}

/// Reads the documentation comments under the cursor and returns their
/// texts, one per line; the cursor ends on the first token that is no
/// documentation comment.
pub fn parse_doc(s: &mut Scanner) -> (content: Vec<u8>)
    requires
        old(s).wf(),
    ensures
        final(s).wf(),
        final(s).input() == old(s).input(),
        final(s).tokens() == old(s).tokens(),
        final(s).pos() == old(s).pos() + doc_run(old(s).tokens(), old(s).pos() as int),
        final(s).spec_peek().kind != TokenKind::DocComment,
        doc_run(old(s).tokens(), old(s).pos() as int) == 0 ==> final(s).offset() == old(
            s,
        ).offset(),
        doc_run(old(s).tokens(), old(s).pos() as int) > 0 ==> final(s).offset() == old(
            s,
        ).tokens()[final(s).pos() - 1].span.hi,
        content@ == doc_content(
            old(s).input(),
            old(s).tokens(),
            old(s).pos() as int,
            doc_run(old(s).tokens(), old(s).pos() as int),
        ),
{
    let ghost input = s.input();
    let ghost tokens = s.tokens();
    let ghost start = s.pos() as int;
    let ghost mut count: nat = 0;
    let mut content: Vec<u8> = Vec::new();
    loop
        invariant
            s.wf(),
            s.input() == input,
            s.tokens() == tokens,
            s.pos() == start + count,
            0 <= start,
            start + count <= tokens.len(),
            input.len() <= u32::MAX,
            tokens_ok(tokens, input.len()),
            forall|j: int| start <= j < start + count ==> (#[trigger] tokens[j]).kind
                == TokenKind::DocComment,
            content@ == doc_content(input, tokens, start, count),
            count == 0 ==> s.offset() == old(s).offset(),
            count > 0 ==> s.offset() == tokens[start + count - 1].span.hi,
        ensures
            s.wf(),
            s.input() == input,
            s.tokens() == tokens,
            s.pos() == start + count,
            count == doc_run(tokens, start),
            s.spec_peek().kind != TokenKind::DocComment,
            content@ == doc_content(input, tokens, start, count),
            count == 0 ==> s.offset() == old(s).offset(),
            count > 0 ==> s.offset() == tokens[start + count - 1].span.hi,
        decreases tokens.len() - s.pos(),
    {
        let token = s.peek();
        match token.kind {
            TokenKind::DocComment => {},
            _ => {
                proof {
                    lemma_doc_run_split(tokens, start, count);
                }
                break ;
            },
        }
        assert(token == tokens[start + count]);
        assert(token_ok(token, input.len()));
        if content.len() > 0 {
            content.push(0x0a);
        }
        let lo = token.span.lo as usize;
        let hi = token.span.hi as usize;
        let spaced = hi - lo >= 4 && s.byte(lo) == 0x2f && s.byte(lo + 1) == 0x2f && s.byte(lo + 2)
            == 0x2f && s.byte(lo + 3) == 0x20;
        let prefix_len: usize = if spaced {
            4
        } else {
            3
        };
        let ghost comment = lexeme(input, token.span);
        let ghost before = content@;
        assert(spaced == has_space(comment));
        let mut i: usize = lo + prefix_len;
        while i < hi
            invariant
                lo + prefix_len <= i <= hi,
                hi <= input.len(),
                s.input() == input,
                comment == input.subrange(lo as int, hi as int),
                content@ == before + comment.subrange(prefix_len as int, i - lo),
            decreases hi - i,
        {
            content.push(s.byte(i));
            assert(content@ =~= before + comment.subrange(prefix_len as int, i + 1 - lo));
            i += 1;
        }
        assert(comment.subrange(prefix_len as int, hi - lo) =~= doc_text(comment));
        s.advance();
        proof {
            count = count + 1;
            assert(content@ =~= doc_content(input, tokens, start, count));
        }
    }
    content
}

/// Reads the visibility `internal`; where another token stands under the
/// cursor, says so and leaves the cursor.
pub fn parse_visibility(s: &mut Scanner) -> (r: Result<Visibility, Error>)
    requires
        old(s).wf(),
    ensures
        final(s).wf(),
        final(s).input() == old(s).input(),
        final(s).tokens() == old(s).tokens(),
        old(s).spec_peek().kind == TokenKind::Keyword(Keyword::Internal) ==> final(s).spec_at(
            old(s),
            1,
        ) && r == Ok::<Visibility, Error>(
            Visibility {
                id: NodeId(crate::assigner::PLACEHOLDER),
                span: old(s).spec_peek().span,
                kind: VisibilityKind::Internal,
            },
        ),
        old(s).spec_peek().kind != TokenKind::Keyword(Keyword::Internal) ==> *final(s) == *old(s)
            && (r matches Err(e) && e@ == ErrorKindView::Token(
            TokenKind::Keyword(Keyword::Internal),
            old(s).spec_peek().kind,
            old(s).spec_peek().span,
        )),
{
    let lo = s.peek().span.lo;
    match token(s, TokenKind::Keyword(Keyword::Internal)) {
        Ok(()) => Ok(Visibility { id: NodeId::default(), span: s.span(lo), kind: VisibilityKind::Internal }),
        Err(e) => Err(e),
    }
}

/// Reads the keyword that names how a specialization is generated; where
/// another token stands under the cursor, says so and leaves the cursor.
pub fn parse_spec_gen(s: &mut Scanner) -> (r: Result<SpecGen, Error>)
    requires
        old(s).wf(),
    ensures
        final(s).wf(),
        final(s).input() == old(s).input(),
        final(s).tokens() == old(s).tokens(),
        match spec_gen_of(old(s).spec_peek().kind) {
            Some(gen) => r == Ok::<SpecGen, Error>(gen) && final(s).spec_at(old(s), 1),
            None => *final(s) == *old(s) && (r matches Err(e) && e@ == ErrorKindView::Rule(
                "specialization generator"@,
                old(s).spec_peek().kind,
                old(s).spec_peek().span,
            )),
        },
{
    if token(s, TokenKind::Keyword(Keyword::Auto)).is_ok() {
        Ok(SpecGen::Auto)
    } else if token(s, TokenKind::Keyword(Keyword::Distribute)).is_ok() {
        Ok(SpecGen::Distribute)
    } else if token(s, TokenKind::Keyword(Keyword::Intrinsic)).is_ok() {
        Ok(SpecGen::Intrinsic)
    } else if token(s, TokenKind::Keyword(Keyword::Invert)).is_ok() {
        Ok(SpecGen::Invert)
    } else if token(s, TokenKind::Keyword(Keyword::Slf)).is_ok() {
        Ok(SpecGen::Slf)
    } else {
        let peek = s.peek();
        Err(Error(ErrorKind::Rule("specialization generator", peek.kind, peek.span)))
    }
}

/// Reads a type as the name of a field: a named type without a namespace
/// gives its name, every other type cannot be read so.
pub fn ty_as_ident(ty: Ty) -> (r: Result<Ident, Error>)
    ensures
        match ty.kind {
            TyKind::Path(path) if path.namespace is None => r matches Ok(name) && name == path.name,
            _ => r matches Err(e) && e@ == ErrorKindView::Convert(
                "identifier"@,
                "type"@,
                ty.span,
            ),
        },
{
    let Ty { id: _, span, kind } = ty;
    match kind {
        TyKind::Path(path) => {
            let Path { id: _, span: _, namespace, name } = path;
            match namespace {
                None => Ok(name),
                Some(_) => Err(Error(ErrorKind::Convert("identifier", "type", span))),
            }
        },
        _ => Err(Error(ErrorKind::Convert("identifier", "type", span))),
    }
}

/// What follows the names of an opening from the token at `at`, after
/// `taken` tokens: the semicolon that ends it, or the token in its place.
pub open spec fn open_end(
    input: Seq<u8>,
    tokens: Seq<Token>,
    at: int,
    taken: nat,
    name: IdentView,
    alias: Option<IdentView>,
) -> (Result<ItemKindView, ErrorKindView>, nat) {
    let end = token_at(tokens, input.len(), at);
    if end.kind == TokenKind::Semi {
        (Ok(ItemKindView::Open(name, alias)), taken + 1)
    } else {
        (Err(ErrorKindView::Token(TokenKind::Semi, end.kind, end.span)), taken)
    }
}

/// What reading the opening of a namespace from the token at `from` gives,
/// and how many tokens it takes: `open`, a dotted name, then `as` and another
/// dotted name or neither, and a semicolon. The first token that does not
/// fit is told, and the tokens before it stay taken.
pub open spec fn open_at(input: Seq<u8>, tokens: Seq<Token>, from: int) -> (
    Result<ItemKindView, ErrorKindView>,
    nat,
) {
    let first = token_at(tokens, input.len(), from);
    if first.kind != TokenKind::Keyword(Keyword::Open) {
        (
            Err(ErrorKindView::Token(TokenKind::Keyword(Keyword::Open), first.kind, first.span)),
            0,
        )
    } else {
        let (name, name_len) = dot_ident_at(input, tokens, from + 1);
        match name {
            Err(e) => (Err(e), 1 + name_len),
            Ok(name) => {
                let next = token_at(tokens, input.len(), from + 1 + name_len);
                if next.kind == TokenKind::Keyword(Keyword::As) {
                    let (alias, alias_len) = dot_ident_at(input, tokens, from + 2 + name_len);
                    match alias {
                        Err(e) => (Err(e), 2 + name_len + alias_len),
                        Ok(alias) => open_end(
                            input,
                            tokens,
                            from + 2 + name_len + alias_len,
                            2 + name_len + alias_len,
                            name,
                            Some(alias),
                        ),
                    }
                } else {
                    open_end(input, tokens, from + 1 + name_len, 1 + name_len, name, None)
                }
            },
        }
    }
}

/// The view of an item kind or of the error in its place.
pub open spec fn kind_result_view(r: Result<ItemKind, Error>) -> Result<
    ItemKindView,
    ErrorKindView,
> {
    match r {
        Ok(kind) => Ok(kind@),
        Err(e) => Err(e@),
    }
}

/// Reads the opening of a namespace.
pub fn parse_open(s: &mut Scanner) -> (r: Result<ItemKind, Error>)
    requires
        old(s).wf(),
    ensures
        final(s).wf(),
        final(s).input() == old(s).input(),
        final(s).tokens() == old(s).tokens(),
        kind_result_view(r) == open_at(old(s).input(), old(s).tokens(), old(s).pos() as int).0,
        final(s).spec_at(old(s), open_at(old(s).input(), old(s).tokens(), old(s).pos() as int).1),
{
    match token(s, TokenKind::Keyword(Keyword::Open)) {
        Ok(()) => {},
        Err(e) => {
            return Err(e);
        },
    }
    let name = match dot_ident(s) {
        Ok(name) => name,
        Err(e) => {
            return Err(e);
        },
    };
    let alias = if token(s, TokenKind::Keyword(Keyword::As)).is_ok() {
        match dot_ident(s) {
            Ok(alias) => Some(alias),
            Err(e) => {
                return Err(e);
            },
        }
    } else {
        None
    };
    match token(s, TokenKind::Semi) {
        Ok(()) => Ok(ItemKind::Open(name, alias)),
        Err(e) => Err(e),
    }
}

} // verus!
