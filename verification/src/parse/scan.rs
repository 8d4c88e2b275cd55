//! The scanner: a cursor over the tokens of a source text.

use vstd::prelude::*;
use crate::span::Span;

verus! {

/// A pair of brackets.
#[derive(Clone, Copy, Debug, PartialEq, Eq, Structural)]
pub enum Delim {
    Brace,
    Bracket,
    Paren,
}

/// A reserved word.
#[derive(Clone, Copy, Debug, PartialEq, Eq, Structural)]
pub enum Keyword {
    Adjoint,
    As,
    Auto,
    Body,
    Controlled,
    Distribute,
    Function,
    Internal,
    Intrinsic,
    Invert,
    Is,
    Namespace,
    Newtype,
    Open,
    Operation,
    Slf,
}

/// The kinds of token.
#[derive(Clone, Copy, Debug, PartialEq, Eq, Structural)]
pub enum TokenKind {
    At,
    Close(Delim),
    Colon,
    Comma,
    DocComment,
    Dot,
    Eof,
    Eq,
    Gt,
    Ident,
    Keyword(Keyword),
    Lt,
    Open(Delim),
    Semi,
}

/// A token: its kind and the region of the source it covers.
#[derive(Clone, Copy, Debug, PartialEq, Eq, Structural)]
pub struct Token {
    pub kind: TokenKind,
    pub span: Span,
}

/// The shortest text a documentation comment can have: its three slashes.
pub const DOC_PREFIX_LEN: u32 = 3;

/// Whether a token lies inside a text of `len` bytes, and, if it is a
/// documentation comment, has room for its three slashes.
pub open spec fn token_ok(token: Token, len: nat) -> bool {
    &&& token.span.lo <= token.span.hi <= len
    &&& token.kind == TokenKind::DocComment ==> token.span.hi - token.span.lo >= DOC_PREFIX_LEN
}

/// Whether every token lies inside a text of `len` bytes.
pub open spec fn tokens_ok(tokens: Seq<Token>, len: nat) -> bool {
    forall|i: int| 0 <= i < tokens.len() ==> token_ok(#[trigger] tokens[i], len)
}

/// The token that follows the last one: the end of a text of `len` bytes.
pub open spec fn eof_token(len: nat) -> Token {
    Token { kind: TokenKind::Eof, span: Span { lo: len as u32, hi: len as u32 } }
}

/// The token at `pos`; past the last token, the end of the text.
pub open spec fn token_at(tokens: Seq<Token>, len: nat, pos: int) -> Token {
    if 0 <= pos < tokens.len() {
        tokens[pos]
    } else {
        eof_token(len)
    }
}

/// The text that a token covers.
pub open spec fn lexeme(input: Seq<u8>, span: Span) -> Seq<u8> {
    input.subrange(span.lo as int, span.hi as int)
}

/// A cursor over the tokens of a source text.
pub struct Scanner {
    input: Vec<u8>,
    tokens: Vec<Token>,
    pos: usize,
    offset: u32,
}

impl Scanner {
    /// The source text.
    pub closed spec fn input(&self) -> Seq<u8> {
        self.input@
    }

    /// The tokens of the source text.
    pub closed spec fn tokens(&self) -> Seq<Token> {
        self.tokens@
    }

    /// How many tokens the cursor has passed.
    pub closed spec fn pos(&self) -> nat {
        self.pos as nat
    }

    /// Where the last token that the cursor passed ends.
    pub closed spec fn offset(&self) -> u32 {
        self.offset
    }

    /// The token under the cursor.
    pub open spec fn spec_peek(&self) -> Token {
        token_at(self.tokens(), self.input().len(), self.pos() as int)
    }

    /// Whether this scanner is `before` after `count` more tokens: the
    /// cursor has passed them, and stands at the end of the last of them.
    pub open spec fn spec_at(&self, before: &Scanner, count: nat) -> bool {
        &&& self.pos() == before.pos() + count
        &&& count == 0 ==> self.offset() == before.offset()
        &&& count > 0 ==> self.offset() == before.tokens()[self.pos() - 1].span.hi
    }

    /// Whether the scanner is sound: every token lies inside the text, and
    /// the cursor has passed no more tokens than there are.
    pub open spec fn wf(&self) -> bool {
        &&& self.input().len() <= u32::MAX
        &&& self.pos() <= self.tokens().len() <= usize::MAX
        &&& tokens_ok(self.tokens(), self.input().len())
    }

    /// A scanner at the first of `tokens`; `None` where a token does not lie
    /// inside `input`, a documentation comment is shorter than its three
    /// slashes, or `input` is longer than an offset can tell.
    pub fn new(input: Vec<u8>, tokens: Vec<Token>) -> (r: Option<Scanner>)
        ensures
            r.is_some() <==> input.len() <= u32::MAX && tokens_ok(tokens@, input.len() as nat),
            r matches Some(s) ==> s.wf() && s.input() == input@ && s.tokens() == tokens@ && s.pos()
                == 0 && s.offset() == 0,
    {
        if input.len() > u32::MAX as usize {
            return None;
        }
        let len = input.len();
        let mut i: usize = 0;
        while i < tokens.len()
            invariant
                i <= tokens.len(),
                len == input.len(),
                len <= u32::MAX,
                forall|j: int| 0 <= j < i ==> token_ok(#[trigger] tokens[j], len as nat),
            decreases tokens.len() - i,
        {
            let token = tokens[i];
            let inside = token.span.lo <= token.span.hi && token.span.hi as usize <= len;
            let roomy = match token.kind {
                TokenKind::DocComment => inside && token.span.hi - token.span.lo >= DOC_PREFIX_LEN,
                _ => true,
            };
            if !inside || !roomy {
                assert(!token_ok(tokens[i as int], len as nat));
                return None;
            }
            i += 1;
        }
        Some(Scanner { input, tokens, pos: 0, offset: 0 })
    }

    /// The token under the cursor.
    #[verifier::when_used_as_spec(spec_peek)]
    pub fn peek(&self) -> (r: Token)
        requires
            self.wf(),
        ensures
            r == self.spec_peek(),
    {
        if self.pos < self.tokens.len() {
            self.tokens[self.pos]
        } else {
            let end = self.input.len() as u32;
            Token { kind: TokenKind::Eof, span: Span { lo: end, hi: end } }
        }
    }

    /// The byte of the source text at `index`.
    pub fn byte(&self, index: usize) -> (r: u8)
        requires
            index < self.input().len(),
        ensures
            r == self.input()[index as int],
    {
        self.input[index]
    }

    /// The text of the token under the cursor.
    pub fn read(&self) -> (r: Vec<u8>)
        requires
            self.wf(),
        ensures
            r@ == lexeme(self.input(), self.spec_peek().span),
    {
        let token = self.peek();
        let hi = token.span.hi as usize;
        let mut text: Vec<u8> = Vec::new();
        let mut i: usize = token.span.lo as usize;
        while i < hi
            invariant
                token.span.lo <= i <= hi,
                hi <= self.input.len(),
                text@ == self.input@.subrange(token.span.lo as int, i as int),
            decreases hi - i,
        {
            text.push(self.input[i]);
            assert(text@ =~= self.input@.subrange(token.span.lo as int, i + 1));
            i += 1;
        }
        assert(self.input@.subrange(token.span.lo as int, hi as int) =~= lexeme(
            self.input(),
            token.span,
        ));
        text
    }

    /// The region from `from` to the end of the last token that the cursor
    /// passed.
    pub fn span(&self, from: u32) -> (r: Span)
        ensures
            r == (Span { lo: from, hi: self.offset() }),
    {
        Span { lo: from, hi: self.offset }
    }

    /// Moves the cursor past the token under it; at the end of the text the
    /// cursor stays.
    pub fn advance(&mut self)
        requires
            old(self).wf(),
        ensures
            final(self).wf(),
            final(self).input() == old(self).input(),
            final(self).tokens() == old(self).tokens(),
            old(self).spec_peek().kind == TokenKind::Eof ==> *final(self) == *old(self),
            old(self).spec_peek().kind != TokenKind::Eof ==> final(self).pos() == old(self).pos() + 1
                && final(self).offset() == old(self).spec_peek().span.hi,
    {
        if self.pos < self.tokens.len() {
            let token = self.tokens[self.pos];
            match token.kind {
                TokenKind::Eof => {},
                _ => {
                    self.offset = token.span.hi;
                    self.pos = self.pos + 1;
                },
            }
        }
    }
}

} // verus!
