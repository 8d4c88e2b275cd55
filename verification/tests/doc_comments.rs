use qsc_passes::parse::item::parse_doc;
use qsc_passes::parse::scan::{Delim, Keyword, Scanner, Token, TokenKind};
use qsc_passes::span::Span;

// Splits a source text into the tokens that these tests need: documentation
// comments, words and single characters.
fn tokens(input: &str) -> Vec<Token> {
    let bytes = input.as_bytes();
    let mut tokens = Vec::new();
    let mut i = 0;
    while i < bytes.len() {
        let lo = i;
        if bytes[i].is_ascii_whitespace() {
            i += 1;
            continue;
        }
        let kind = if input[i..].starts_with("///") {
            while i < bytes.len() && bytes[i] != b'\n' {
                i += 1;
            }
            TokenKind::DocComment
        } else if bytes[i].is_ascii_alphabetic() {
            while i < bytes.len() && bytes[i].is_ascii_alphanumeric() {
                i += 1;
            }
            match &input[lo..i] {
                "namespace" => TokenKind::Keyword(Keyword::Namespace),
                "operation" => TokenKind::Keyword(Keyword::Operation),
                _ => TokenKind::Ident,
            }
        } else {
            i += 1;
            match bytes[lo] {
                b'{' => TokenKind::Open(Delim::Brace),
                b'}' => TokenKind::Close(Delim::Brace),
                b';' => TokenKind::Semi,
                _ => TokenKind::At,
            }
        };
        tokens.push(Token { kind, span: Span { lo: lo as u32, hi: i as u32 } });
    }
    tokens
}

fn scanner(input: &str) -> Scanner {
    Scanner::new(input.as_bytes().to_vec(), tokens(input)).unwrap()
}

fn doc(input: &str) -> (String, Scanner) {
    let mut s = scanner(input);
    let content = parse_doc(&mut s);
    (String::from_utf8(content).unwrap(), s)
}

#[test]
fn no_comment_gives_no_text() {
    let (content, s) = doc("namespace A {}");
    assert_eq!(content, "");
    assert_eq!(s.peek().kind, TokenKind::Keyword(Keyword::Namespace));
    assert_eq!(s.span(0), Span { lo: 0, hi: 0 });
}

#[test]
fn one_comment_loses_slashes_and_space() {
    let (content, s) = doc("/// This is a doc comment.\nnamespace A {}");
    assert_eq!(content, "This is a doc comment.");
    assert_eq!(s.peek().kind, TokenKind::Keyword(Keyword::Namespace));
    assert_eq!(s.span(0), Span { lo: 0, hi: 26 });
}

#[test]
fn comment_without_space_loses_its_slashes_only() {
    let (content, _) = doc("///tight\noperation");
    assert_eq!(content, "tight");
}

#[test]
fn only_one_space_is_taken() {
    let (content, _) = doc("///  two spaces\noperation");
    assert_eq!(content, " two spaces");
}

#[test]
fn comments_in_a_row_are_joined_by_line_feeds() {
    let (content, s) = doc("/// first\n/// second\n///third\noperation Foo");
    assert_eq!(content, "first\nsecond\nthird");
    assert_eq!(s.peek().kind, TokenKind::Keyword(Keyword::Operation));
}

#[test]
fn empty_first_comment_brings_no_line_feed() {
    let (content, _) = doc("///\n/// second\noperation");
    assert_eq!(content, "second");
}

#[test]
fn empty_later_comment_brings_an_empty_line() {
    let (content, _) = doc("/// first\n///\n/// third\noperation");
    assert_eq!(content, "first\n\nthird");
}

#[test]
fn comments_after_another_token_are_left() {
    let mut s = scanner("/// first\noperation /// second\nFoo");
    assert_eq!(String::from_utf8(parse_doc(&mut s)).unwrap(), "first");
    assert_eq!(s.peek().kind, TokenKind::Keyword(Keyword::Operation));
    s.advance();
    assert_eq!(String::from_utf8(parse_doc(&mut s)).unwrap(), "second");
    assert_eq!(s.peek().kind, TokenKind::Ident);
}

#[test]
fn comments_up_to_the_end_leave_the_cursor_at_the_end() {
    let (content, s) = doc("/// only");
    assert_eq!(content, "only");
    assert_eq!(s.peek(), Token { kind: TokenKind::Eof, span: Span { lo: 8, hi: 8 } });
}

#[test]
fn text_keeps_bytes_beyond_ascii() {
    let (content, _) = doc("/// größer\noperation");
    assert_eq!(content, "größer");
}

#[test]
fn scanner_refuses_tokens_outside_the_text() {
    let outside = Token { kind: TokenKind::Ident, span: Span { lo: 2, hi: 9 } };
    assert!(Scanner::new(b"abc".to_vec(), vec![outside]).is_none());
    let backwards = Token { kind: TokenKind::Ident, span: Span { lo: 2, hi: 1 } };
    assert!(Scanner::new(b"abc".to_vec(), vec![backwards]).is_none());
    let short = Token { kind: TokenKind::DocComment, span: Span { lo: 0, hi: 2 } };
    assert!(Scanner::new(b"//x".to_vec(), vec![short]).is_none());
    let fine = Token { kind: TokenKind::DocComment, span: Span { lo: 0, hi: 3 } };
    assert!(Scanner::new(b"///".to_vec(), vec![fine]).is_some());
}

#[test]
fn advance_moves_past_one_token_and_stops_at_the_end() {
    let mut s = scanner("a b");
    assert_eq!(s.peek().span, Span { lo: 0, hi: 1 });
    assert_eq!(s.byte(2), b'b');
    s.advance();
    assert_eq!(s.peek().span, Span { lo: 2, hi: 3 });
    assert_eq!(s.span(0), Span { lo: 0, hi: 1 });
    s.advance();
    assert_eq!(s.peek().kind, TokenKind::Eof);
    assert_eq!(s.span(0), Span { lo: 0, hi: 3 });
    s.advance();
    assert_eq!(s.peek().kind, TokenKind::Eof);
    assert_eq!(s.span(2), Span { lo: 2, hi: 3 });
}
