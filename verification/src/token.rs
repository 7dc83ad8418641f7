//! Tokens as the lexer hands them over.

use crate::syntax_kind::SyntaxKind;
use vstd::prelude::*;

verus! {

/// A range of the source text, from `start` up to but not including `end`.
#[derive(Clone, Copy, PartialEq, Eq, Debug, Hash, Structural)]
pub struct TextRange {
    pub start: usize,
    pub end: usize,
}

impl TextRange {
    /// The range from `start` to `end`.
    pub fn new(start: usize, end: usize) -> (r: TextRange)
        ensures
            r == (TextRange { start, end }),
    {
        TextRange { start, end }
    }
}

/// One token of the input: its kind, where it stands in the source, its raw text, and
/// whether a line break separates it from the token before it.
#[derive(Clone, PartialEq, Eq, Debug)]
pub struct Token {
    pub kind: SyntaxKind,
    pub range: TextRange,
    pub text: String,
    pub line_break_before: bool,
}

/// The mathematical value of a [`Token`].
pub struct TokenView {
    pub kind: SyntaxKind,
    pub range: TextRange,
    pub text: Seq<char>,
    pub line_break_before: bool,
}

impl View for Token {
    type V = TokenView;

    open spec fn view(&self) -> TokenView {
        TokenView {
            kind: self.kind,
            range: self.range,
            text: self.text@,
            line_break_before: self.line_break_before,
        }
    }
}

impl Token {
    /// A token of the given kind and text that covers the source from `start` to `end`.
    pub fn new(kind: SyntaxKind, start: usize, end: usize, text: &str, line_break_before: bool) -> (r:
        Token)
        ensures
            r@ == (TokenView {
                kind,
                range: TextRange { start, end },
                text: text@,
                line_break_before,
            }),
    {
        Token { kind, range: TextRange { start, end }, text: text.to_owned(), line_break_before }
    }
}

/// The views of a sequence of tokens.
pub open spec fn token_views(tokens: Seq<Token>) -> Seq<TokenView> {
    tokens.map_values(|t: Token| t@)
}

/// The raw texts of `tokens`, one after the other.
pub open spec fn source_text(tokens: Seq<TokenView>) -> Seq<char>
    decreases tokens.len(),
{
    if tokens.len() == 0 {
        Seq::empty()
    } else {
        source_text(tokens.drop_last()) + tokens.last().text
    }
}

} // verus!
