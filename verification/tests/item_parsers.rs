use qsc_passes::assigner::NodeId;
use qsc_passes::hir::SpecGen;
use qsc_passes::parse::ast::{
    Error, ErrorKind, Ident, ItemKind, Path, Ty, TyKind, Visibility, VisibilityKind,
};
use qsc_passes::parse::item::{parse_open, parse_spec_gen, parse_visibility, ty_as_ident};
use qsc_passes::parse::prim::{dot_ident, ident, path, token};
use qsc_passes::parse::scan::{Delim, Keyword, Scanner, Token, TokenKind};
use qsc_passes::span::Span;

// Splits a source text into words, dots, semicolons and braces.
fn tokens(input: &str) -> Vec<Token> {
    let bytes = input.as_bytes();
    let mut tokens = Vec::new();
    let mut i = 0;
    while i < bytes.len() {
        let lo = i;
        if bytes[i].is_ascii_whitespace() {
            i += 1;
            continue;
        }
        let kind = if bytes[i].is_ascii_alphabetic() {
            while i < bytes.len() && bytes[i].is_ascii_alphanumeric() {
                i += 1;
            }
            match &input[lo..i] {
                "as" => TokenKind::Keyword(Keyword::As),
                "auto" => TokenKind::Keyword(Keyword::Auto),
                "distribute" => TokenKind::Keyword(Keyword::Distribute),
                "internal" => TokenKind::Keyword(Keyword::Internal),
                "intrinsic" => TokenKind::Keyword(Keyword::Intrinsic),
                "invert" => TokenKind::Keyword(Keyword::Invert),
                "open" => TokenKind::Keyword(Keyword::Open),
                "self" => TokenKind::Keyword(Keyword::Slf),
                _ => TokenKind::Ident,
            }
        } else {
            i += 1;
            match bytes[lo] {
                b'.' => TokenKind::Dot,
                b';' => TokenKind::Semi,
                b':' => TokenKind::Colon,
                b',' => TokenKind::Comma,
                b'{' => TokenKind::Open(Delim::Brace),
                b'}' => TokenKind::Close(Delim::Brace),
                _ => TokenKind::At,
            }
        };
        tokens.push(Token { kind, span: Span { lo: lo as u32, hi: i as u32 } });
    }
    tokens
}

fn scanner(input: &str) -> Scanner {
    Scanner::new(input.as_bytes().to_vec(), tokens(input)).unwrap()
}

fn sp(lo: u32, hi: u32) -> Span {
    Span { lo, hi }
}

fn shown(name: &Ident) -> (NodeId, Span, String) {
    (name.id, name.span, String::from_utf8(name.name.clone()).unwrap())
}

fn placeholder() -> NodeId {
    NodeId(u32::MAX)
}

#[test]
fn token_is_taken_only_if_it_is_of_the_kind() {
    let mut s = scanner("; x");
    assert_eq!(token(&mut s, TokenKind::Semi), Ok(()));
    assert_eq!(s.span(0), sp(0, 1));
    assert_eq!(
        token(&mut s, TokenKind::Semi),
        Err(Error(ErrorKind::Token(TokenKind::Semi, TokenKind::Ident, sp(2, 3))))
    );
    assert_eq!(s.peek().kind, TokenKind::Ident);
    assert_eq!(s.span(0), sp(0, 1));
}

#[test]
fn end_of_text_is_taken_without_moving() {
    let mut s = scanner("x");
    assert_eq!(
        token(&mut s, TokenKind::Eof),
        Err(Error(ErrorKind::Token(TokenKind::Eof, TokenKind::Ident, sp(0, 1))))
    );
    s.advance();
    assert_eq!(token(&mut s, TokenKind::Eof), Ok(()));
    assert_eq!(token(&mut s, TokenKind::Eof), Ok(()));
    assert_eq!(s.span(0), sp(0, 1));
}

#[test]
fn visibility_is_internal_or_an_error() {
    let mut s = scanner("internal operation");
    assert_eq!(
        parse_visibility(&mut s),
        Ok(Visibility { id: placeholder(), span: sp(0, 8), kind: VisibilityKind::Internal })
    );
    assert_eq!(s.peek().span, sp(9, 18));
    assert_eq!(
        parse_visibility(&mut s),
        Err(Error(ErrorKind::Token(
            TokenKind::Keyword(Keyword::Internal),
            TokenKind::Ident,
            sp(9, 18)
        )))
    );
    assert_eq!(s.peek().span, sp(9, 18));
}

#[test]
fn each_generator_has_its_keyword() {
    for (text, gen) in [
        ("auto", SpecGen::Auto),
        ("distribute", SpecGen::Distribute),
        ("intrinsic", SpecGen::Intrinsic),
        ("invert", SpecGen::Invert),
        ("self", SpecGen::Slf),
    ] {
        let mut s = scanner(text);
        assert_eq!(parse_spec_gen(&mut s), Ok(gen));
        assert_eq!(s.peek().kind, TokenKind::Eof);
    }
}

#[test]
fn other_token_is_no_generator() {
    let mut s = scanner("internal");
    assert_eq!(
        parse_spec_gen(&mut s),
        Err(Error(ErrorKind::Rule(
            "specialization generator",
            TokenKind::Keyword(Keyword::Internal),
            sp(0, 8)
        )))
    );
    assert_eq!(s.peek().span, sp(0, 8));
    let mut s = scanner("");
    assert_eq!(
        parse_spec_gen(&mut s),
        Err(Error(ErrorKind::Rule("specialization generator", TokenKind::Eof, sp(0, 0))))
    );
}

#[test]
fn name_is_read_with_its_text() {
    let mut s = scanner("Foo bar");
    let name = ident(&mut s).unwrap();
    assert_eq!(shown(&name), (placeholder(), sp(0, 3), "Foo".to_string()));
    let name = ident(&mut s).unwrap();
    assert_eq!(shown(&name), (placeholder(), sp(4, 7), "bar".to_string()));
    assert_eq!(
        ident(&mut s).unwrap_err(),
        Error(ErrorKind::Rule("identifier", TokenKind::Eof, sp(7, 7)))
    );
}

#[test]
fn keyword_is_no_name() {
    let mut s = scanner("open");
    assert_eq!(
        ident(&mut s).unwrap_err(),
        Error(ErrorKind::Rule("identifier", TokenKind::Keyword(Keyword::Open), sp(0, 4)))
    );
    assert_eq!(s.peek().span, sp(0, 4));
}

fn parts(p: &Path) -> (Span, Option<(Span, String)>, (Span, String)) {
    (
        p.span,
        p.namespace.as_ref().map(|n| (n.span, String::from_utf8(n.name.clone()).unwrap())),
        (p.name.span, String::from_utf8(p.name.name.clone()).unwrap()),
    )
}

#[test]
fn single_name_is_a_path_without_namespace() {
    let mut s = scanner("Foo;");
    let p = path(&mut s).unwrap();
    assert_eq!(parts(&p), (sp(0, 3), None, (sp(0, 3), "Foo".to_string())));
    assert_eq!(p.id, placeholder());
    assert_eq!(s.peek().kind, TokenKind::Semi);
}

#[test]
fn last_name_of_a_path_is_its_name() {
    let mut s = scanner("Foo.Bar");
    let p = path(&mut s).unwrap();
    assert_eq!(
        parts(&p),
        (sp(0, 7), Some((sp(0, 3), "Foo".to_string())), (sp(4, 7), "Bar".to_string()))
    );
}

#[test]
fn names_before_the_last_are_joined_into_the_namespace() {
    let mut s = scanner("Microsoft . Quantum.Core .Length x");
    let p = path(&mut s).unwrap();
    assert_eq!(
        parts(&p),
        (
            sp(0, 32),
            Some((sp(0, 24), "Microsoft.Quantum.Core".to_string())),
            (sp(26, 32), "Length".to_string())
        )
    );
    assert_eq!(s.peek().span, sp(33, 34));
}

#[test]
fn dot_without_a_name_after_it_is_an_error() {
    let mut s = scanner("Foo.Bar.;");
    assert_eq!(
        path(&mut s).unwrap_err(),
        Error(ErrorKind::Rule("identifier", TokenKind::Semi, sp(8, 9)))
    );
    // The dot stays taken.
    assert_eq!(s.peek().kind, TokenKind::Semi);
    assert_eq!(s.span(0), sp(0, 8));
}

#[test]
fn path_has_to_start_with_a_name() {
    let mut s = scanner(".Foo");
    assert_eq!(
        path(&mut s).unwrap_err(),
        Error(ErrorKind::Rule("identifier", TokenKind::Dot, sp(0, 1)))
    );
    assert_eq!(s.peek().kind, TokenKind::Dot);
}

#[test]
fn dotted_name_is_one_name() {
    let mut s = scanner("Foo.Bar.Baz;");
    let name = dot_ident(&mut s).unwrap();
    assert_eq!(shown(&name), (placeholder(), sp(0, 11), "Foo.Bar.Baz".to_string()));
    let mut s = scanner("Foo");
    let name = dot_ident(&mut s).unwrap();
    assert_eq!(shown(&name), (placeholder(), sp(0, 3), "Foo".to_string()));
}

fn opened(input: &str) -> Result<(String, Option<String>), Error> {
    let mut s = scanner(input);
    match parse_open(&mut s) {
        Ok(ItemKind::Open(name, alias)) => Ok((
            String::from_utf8(name.name).unwrap(),
            alias.map(|a| String::from_utf8(a.name).unwrap()),
        )),
        Ok(other) => panic!("not an opening: {other:?}"),
        Err(e) => Err(e),
    }
}

#[test]
fn open_names_a_namespace() {
    assert_eq!(opened("open Foo.Bar;"), Ok(("Foo.Bar".to_string(), None)));
}

#[test]
fn open_may_give_another_name() {
    assert_eq!(
        opened("open Foo.Bar as Baz.Qux;"),
        Ok(("Foo.Bar".to_string(), Some("Baz.Qux".to_string())))
    );
}

#[test]
fn open_tells_the_first_token_that_does_not_fit() {
    assert_eq!(
        opened("Foo;"),
        Err(Error(ErrorKind::Token(TokenKind::Keyword(Keyword::Open), TokenKind::Ident, sp(0, 3))))
    );
    assert_eq!(
        opened("open ;"),
        Err(Error(ErrorKind::Rule("identifier", TokenKind::Semi, sp(5, 6))))
    );
    assert_eq!(
        opened("open Foo as ;"),
        Err(Error(ErrorKind::Rule("identifier", TokenKind::Semi, sp(12, 13))))
    );
    assert_eq!(
        opened("open Foo Bar"),
        Err(Error(ErrorKind::Token(TokenKind::Semi, TokenKind::Ident, sp(9, 12))))
    );
    assert_eq!(
        opened("open Foo as Bar"),
        Err(Error(ErrorKind::Token(TokenKind::Semi, TokenKind::Eof, sp(15, 15))))
    );
}

#[test]
fn open_leaves_the_cursor_behind_its_semicolon() {
    let mut s = scanner("open Foo; open Bar;");
    assert!(parse_open(&mut s).is_ok());
    assert_eq!(s.peek().span, sp(10, 14));
    assert_eq!(s.span(0), sp(0, 9));
}

fn named(name: &str, namespace: Option<&str>) -> Ty {
    let ident = |text: &str, span: Span| Ident { id: NodeId(1), span, name: text.as_bytes().to_vec() };
    Ty {
        id: NodeId(5),
        span: sp(10, 20),
        kind: TyKind::Path(Path {
            id: NodeId(6),
            span: sp(10, 20),
            namespace: namespace.map(|n| ident(n, sp(10, 13))),
            name: ident(name, sp(14, 20)),
        }),
    }
}

#[test]
fn plain_named_type_reads_as_a_name() {
    let name = ty_as_ident(named("Length", None)).unwrap();
    assert_eq!(shown(&name), (NodeId(1), sp(14, 20), "Length".to_string()));
}

#[test]
fn other_type_does_not_read_as_a_name() {
    let refused = Error(ErrorKind::Convert("identifier", "type", sp(10, 20)));
    assert_eq!(ty_as_ident(named("Length", Some("Foo"))).unwrap_err(), refused);
    let hole = Ty { id: NodeId(5), span: sp(10, 20), kind: TyKind::Hole };
    assert_eq!(ty_as_ident(hole).unwrap_err(), refused);
    let array = Ty {
        id: NodeId(5),
        span: sp(10, 20),
        kind: TyKind::Array(Box::new(named("Length", None))),
    };
    assert_eq!(ty_as_ident(array).unwrap_err(), refused);
    let tuple = Ty { id: NodeId(5), span: sp(10, 20), kind: TyKind::Tuple(Vec::new()) };
    assert_eq!(ty_as_ident(tuple).unwrap_err(), refused);
    let paren = Ty {
        id: NodeId(5),
        span: sp(10, 20),
        kind: TyKind::Paren(Box::new(named("Length", None))),
    };
    assert_eq!(ty_as_ident(paren).unwrap_err(), refused);
}
