//! The language of types: which runs of tokens are a type, as a function of the tokens
//! alone. Each function takes the tokens and the index at which a phrase is to begin,
//! and gives the index just behind the phrase, or nothing where no such phrase begins
//! there.

use crate::state::MAX_DEPTH;
use crate::syntax::model::{is_literal_type, is_name_like, primitive_kind};
use crate::syntax_kind::SyntaxKind;
use crate::token::TokenView;
use vstd::prelude::*;

verus! {

/// The kind of the token at `i`; `EOF` where there is none.
pub open spec fn kind_at(tokens: Seq<TokenView>, i: int) -> SyntaxKind {
    if 0 <= i < tokens.len() {
        tokens[i].kind
    } else {
        SyntaxKind::EOF
    }
}

/// Whether there is a token at `i` and it is of kind `kind`.
pub open spec fn is_at(tokens: Seq<TokenView>, i: int, kind: SyntaxKind) -> bool {
    0 <= i < tokens.len() && tokens[i].kind == kind
}

/// Whether there is a token at `i` and its text is `text`.
pub open spec fn word_at(tokens: Seq<TokenView>, i: int, text: Seq<char>) -> bool {
    0 <= i < tokens.len() && tokens[i].text == text
}

/// Whether a `<` at `i` opens type arguments: it is there, on the line of the token
/// before it.
pub open spec fn args_follow(tokens: Seq<TokenView>, i: int) -> bool {
    is_at(tokens, i, SyntaxKind::L_ANGLE) && !tokens[i].line_break_before
}

/// How many tokens are left from `i` on.
pub open spec fn left(tokens: Seq<TokenView>, i: int) -> nat {
    if i <= tokens.len() {
        (tokens.len() - i) as nat
    } else {
        0
    }
}

/// A name: an identifier, or a reserved word where `allow_reserved` is set.
pub open spec fn name_end(tokens: Seq<TokenView>, i: int, allow_reserved: bool) -> Option<int> {
    if 0 <= i < tokens.len() && (tokens[i].kind == SyntaxKind::IDENT || (tokens[i].kind.keyword()
        && allow_reserved)) {
        Some(i + 1)
    } else {
        None
    }
}

/// Any number of `.` and a name.
pub open spec fn path_rest_end(tokens: Seq<TokenView>, i: int, allow_reserved: bool) -> Option<
    int,
>
    decreases left(tokens, i),
{
    if is_at(tokens, i, SyntaxKind::DOT) {
        if name_end(tokens, i + 1, allow_reserved) is Some {
            path_rest_end(tokens, i + 2, allow_reserved)
        } else {
            None
        }
    } else {
        Some(i)
    }
}

/// An entity name: a name that is no reserved word, then any number of `.` and a name.
pub open spec fn path_end(tokens: Seq<TokenView>, i: int, allow_reserved: bool) -> Option<int> {
    if name_end(tokens, i, false) is Some {
        path_rest_end(tokens, i + 1, allow_reserved)
    } else {
        None
    }
}

/// The index of the first token from `i` on that is no chunk of template text.
pub open spec fn chunks_end(tokens: Seq<TokenView>, i: int) -> int
    decreases left(tokens, i),
{
    if is_at(tokens, i, SyntaxKind::TEMPLATE_CHUNK) {
        chunks_end(tokens, i + 1)
    } else {
        i
    }
}

/// A template without interpolations: a backtick, chunks of text, and a backtick.
pub open spec fn template_end(tokens: Seq<TokenView>, i: int) -> Option<int> {
    if is_at(tokens, i, SyntaxKind::BACKTICK) && is_at(
        tokens,
        chunks_end(tokens, i + 1),
        SyntaxKind::BACKTICK,
    ) {
        Some(chunks_end(tokens, i + 1) + 1)
    } else {
        None
    }
}

/// A type, where `depth` types enclose it. Beyond the limit of nesting nothing is a
/// type.
pub open spec fn type_end(tokens: Seq<TokenView>, i: int, depth: int) -> Option<int>
    decreases left(tokens, i), 5nat,
{
    if depth >= MAX_DEPTH {
        None
    } else {
        non_array_type_end(tokens, i, depth + 1)
    }
}

/// One or more types with a `,` between each two.
pub open spec fn type_list_end(tokens: Seq<TokenView>, i: int, depth: int) -> Option<int>
    decreases left(tokens, i), 6nat,
{
    match type_end(tokens, i, depth) {
        None => None,
        Some(e) => if is_at(tokens, e, SyntaxKind::COMMA) && e >= i {
            type_list_end(tokens, e + 1, depth)
        } else {
            Some(e)
        },
    }
}

/// Type arguments: `<`, a list of types, and `>`.
pub open spec fn type_args_end(tokens: Seq<TokenView>, i: int, depth: int) -> Option<int>
    decreases left(tokens, i), 2nat,
{
    if is_at(tokens, i, SyntaxKind::L_ANGLE) {
        match type_list_end(tokens, i + 1, depth) {
            Some(e) if is_at(tokens, e, SyntaxKind::R_ANGLE) => Some(e + 1),
            _ => None,
        }
    } else {
        None
    }
}

/// A tuple type: `[`, then `]` at once or a list of types and `]`.
pub open spec fn tuple_end(tokens: Seq<TokenView>, i: int, depth: int) -> Option<int>
    decreases left(tokens, i), 3nat,
{
    if is_at(tokens, i, SyntaxKind::L_BRACK) {
        if is_at(tokens, i + 1, SyntaxKind::R_BRACK) {
            Some(i + 2)
        } else {
            match type_list_end(tokens, i + 1, depth) {
                Some(e) if is_at(tokens, e, SyntaxKind::R_BRACK) => Some(e + 1),
                _ => None,
            }
        }
    } else {
        None
    }
}

/// A type in parentheses: `(`, a type, and `)`.
pub open spec fn paren_end(tokens: Seq<TokenView>, i: int, depth: int) -> Option<int>
    decreases left(tokens, i), 3nat,
{
    if is_at(tokens, i, SyntaxKind::L_PAREN) {
        match type_end(tokens, i + 1, depth) {
            Some(e) if is_at(tokens, e, SyntaxKind::R_PAREN) => Some(e + 1),
            _ => None,
        }
    } else {
        None
    }
}

/// A type reference: an entity name that does not begin with an access modifier, and
/// type arguments if a `<` follows on the same line.
pub open spec fn type_ref_end(tokens: Seq<TokenView>, i: int, depth: int) -> Option<int>
    decreases left(tokens, i), 3nat,
{
    if word_at(tokens, i, "public"@) || word_at(tokens, i, "private"@) || word_at(
        tokens,
        i,
        "protected"@,
    ) || word_at(tokens, i, "readonly"@) {
        None
    } else {
        match path_end(tokens, i, true) {
            Some(e) if e > i => if args_follow(tokens, e) {
                type_args_end(tokens, e, depth)
            } else {
                Some(e)
            },
            _ => None,
        }
    }
}

/// An import type: `import`, `(`, a string, `)`, then a `.` and an entity name if a
/// `.` follows, then type arguments if a `<` follows on the same line.
pub open spec fn import_end(tokens: Seq<TokenView>, i: int, depth: int) -> Option<int>
    decreases left(tokens, i), 3nat,
{
    if is_at(tokens, i, SyntaxKind::IMPORT_KW) && is_at(tokens, i + 1, SyntaxKind::L_PAREN)
        && is_at(tokens, i + 2, SyntaxKind::STRING) && is_at(tokens, i + 3, SyntaxKind::R_PAREN) {
        let named = if is_at(tokens, i + 4, SyntaxKind::DOT) {
            path_end(tokens, i + 5, false)
        } else {
            Some(i + 4)
        };
        match named {
            Some(e) if e > i => if args_follow(tokens, e) {
                type_args_end(tokens, e, depth)
            } else {
                Some(e)
            },
            _ => None,
        }
    } else {
        None
    }
}

/// A `this` predicate: the word `asserts` or not, then `this`, then the word `is` and
/// a type, or neither.
pub open spec fn this_predicate_end(tokens: Seq<TokenView>, i: int, depth: int) -> Option<int>
    decreases left(tokens, i), 3nat,
{
    let this = if word_at(tokens, i, "asserts"@) {
        i + 1
    } else {
        i
    };
    if !is_at(tokens, this, SyntaxKind::THIS_KW) {
        None
    } else if word_at(tokens, this + 1, "is"@) {
        type_end(tokens, this + 2, depth)
    } else {
        Some(this + 1)
    }
}

/// The type that begins at `i`, by the kind and the text of the token there.
pub open spec fn non_array_type_end(tokens: Seq<TokenView>, i: int, depth: int) -> Option<int>
    decreases left(tokens, i), 4nat,
{
    let kind = kind_at(tokens, i);
    if !(0 <= i < tokens.len()) {
        None
    } else if is_name_like(kind) {
        if word_at(tokens, i, "asserts"@) && is_at(tokens, i + 1, SyntaxKind::THIS_KW) {
            this_predicate_end(tokens, i, depth)
        } else if primitive_kind(tokens[i].text) is Some && !is_at(tokens, i + 1, SyntaxKind::DOT) {
            Some(i + 1)
        } else {
            type_ref_end(tokens, i, depth)
        }
    } else if is_literal_type(kind) {
        Some(i + 1)
    } else if kind == SyntaxKind::BACKTICK {
        template_end(tokens, i)
    } else if kind == SyntaxKind::MINUS {
        if is_at(tokens, i + 1, SyntaxKind::NUMBER) {
            Some(i + 2)
        } else {
            None
        }
    } else if kind == SyntaxKind::IMPORT_KW {
        import_end(tokens, i, depth)
    } else if kind == SyntaxKind::THIS_KW {
        if word_at(tokens, i + 1, "is"@) {
            this_predicate_end(tokens, i, depth)
        } else {
            Some(i + 1)
        }
    } else if kind == SyntaxKind::TYPEOF_KW {
        path_end(tokens, i + 1, true)
    } else if kind == SyntaxKind::L_BRACK {
        tuple_end(tokens, i, depth)
    } else if kind == SyntaxKind::L_PAREN {
        paren_end(tokens, i, depth)
    } else {
        None
    }
}

} // verus!
