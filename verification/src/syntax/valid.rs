//! A phrase of the language is parsed without a diagnostic: for each production, if
//! the grammar finds its phrase at the cursor, the production consumes exactly that
//! phrase, reports nothing, and gives a node.

use crate::marker::CompletedMarker;
use crate::state::ParserState;
use crate::syntax::grammar;
use crate::syntax::model;
use crate::syntax_kind::SyntaxKind;
use vstd::prelude::*;

verus! {

/// Whether `after` is what a clean parse leaves of `before`: the cursor at `end`, and
/// the input, the diagnostics and the depth as they were.
pub open spec fn clean(before: ParserState, after: ParserState, end: int) -> bool {
    &&& after.tokens == before.tokens
    &&& after.errors == before.errors
    &&& after.depth == before.depth
    &&& after.pos == end
}

/// A name is parsed cleanly.
pub proof fn lemma_name_is_clean(s: ParserState, recovery: Set<SyntaxKind>, allow_reserved: bool)
    requires
        grammar::name_end(s.tokens, s.pos, allow_reserved) is Some,
    ensures
        clean(s, model::simple_name(s, recovery, allow_reserved).0, s.pos + 1),
        model::simple_name(s, recovery, allow_reserved).1 is Some,
{
}

/// The rest of a qualified path is parsed cleanly.
pub proof fn lemma_path_rest_is_clean(
    s: ParserState,
    lhs: CompletedMarker,
    recovery: Set<SyntaxKind>,
    allow_reserved: bool,
)
    requires
        0 <= s.pos,
        grammar::path_rest_end(s.tokens, s.pos, allow_reserved) is Some,
    ensures
        clean(
            s,
            model::qualified(s, lhs, recovery, allow_reserved).0,
            grammar::path_rest_end(s.tokens, s.pos, allow_reserved).unwrap(),
        ),
        grammar::path_rest_end(s.tokens, s.pos, allow_reserved).unwrap() >= s.pos,
    decreases s.remaining(),
{
    if s.at(SyntaxKind::DOT) && !s.at_end() {
        let s1 = s.precede(lhs).bump();
        lemma_name_is_clean(s1, recovery, allow_reserved);
        let s2 = model::simple_name(s1, recovery, allow_reserved).0;
        lemma_path_rest_is_clean(
            s2.finish(SyntaxKind::TS_QUALIFIED_PATH),
            model::node_around(lhs, s, s2, SyntaxKind::TS_QUALIFIED_PATH),
            recovery,
            allow_reserved,
        );
    }
}

/// An entity name is parsed cleanly, and is not empty.
pub proof fn lemma_path_is_clean(s: ParserState, recovery: Set<SyntaxKind>, allow_reserved: bool)
    requires
        0 <= s.pos,
        grammar::path_end(s.tokens, s.pos, allow_reserved) is Some,
    ensures
        clean(
            s,
            model::entity_name(s, recovery, allow_reserved).0,
            grammar::path_end(s.tokens, s.pos, allow_reserved).unwrap(),
        ),
        model::entity_name(s, recovery, allow_reserved).1 is Some,
        grammar::path_end(s.tokens, s.pos, allow_reserved).unwrap() > s.pos,
{
    lemma_name_is_clean(s, recovery, false);
    let (s1, first) = model::simple_name(s, recovery, false);
    lemma_path_rest_is_clean(
        s1,
        first.unwrap(),
        recovery.insert(SyntaxKind::DOT),
        allow_reserved,
    );
}

/// The chunks of a template are consumed up to the closing backtick, and no
/// interpolation is found among them.
pub proof fn lemma_chunks_are_clean(s: ParserState, elements: Seq<CompletedMarker>)
    requires
        0 <= s.pos,
        grammar::is_at(s.tokens, grammar::chunks_end(s.tokens, s.pos), SyntaxKind::BACKTICK),
    ensures
        clean(s, model::template_parts(s, elements).0, grammar::chunks_end(s.tokens, s.pos)),
        model::template_parts(s, elements).1 == elements,
        grammar::chunks_end(s.tokens, s.pos) >= s.pos,
    decreases s.remaining(),
{
    if s.at_end() {
    } else if s.at(SyntaxKind::TEMPLATE_CHUNK) {
        lemma_chunks_are_clean(s.bump(), elements);
    }
}

/// A template without interpolations is parsed cleanly, and none is handed out.
pub proof fn lemma_template_is_clean(s: ParserState)
    requires
        0 <= s.pos,
        grammar::template_end(s.tokens, s.pos) is Some,
    ensures
        clean(s, model::template(s).0, grammar::template_end(s.tokens, s.pos).unwrap()),
        model::template(s).2.len() == 0,
        grammar::template_end(s.tokens, s.pos).unwrap() > s.pos,
{
    let s0 = s.start().expect(SyntaxKind::BACKTICK);
    lemma_chunks_are_clean(s0, Seq::empty());
}

/// A type is parsed cleanly.
///
/// This is the law of clean input: where a type of the language begins at the cursor,
/// parsing it reports no diagnostic, consumes that type and nothing more, and gives a
/// node.
pub proof fn lemma_type_is_clean(s: ParserState)
    requires
        0 <= s.pos,
        grammar::type_end(s.tokens, s.pos, s.depth) is Some,
    ensures
        clean(s, model::ty(s).0, grammar::type_end(s.tokens, s.pos, s.depth).unwrap()),
        model::ty(s).1 is Some,
        grammar::type_end(s.tokens, s.pos, s.depth).unwrap() > s.pos,
    decreases s.remaining(), 5nat,
{
    lemma_non_array_type_is_clean(s.deeper());
}

/// A list of types is parsed cleanly.
pub proof fn lemma_type_list_is_clean(s: ParserState)
    requires
        0 <= s.pos,
        grammar::type_list_end(s.tokens, s.pos, s.depth) is Some,
    ensures
        clean(s, model::type_list(s), grammar::type_list_end(s.tokens, s.pos, s.depth).unwrap()),
        grammar::type_list_end(s.tokens, s.pos, s.depth).unwrap() > s.pos,
    decreases s.remaining(), 6nat,
{
    lemma_type_is_clean(s);
    let s1 = model::ty(s).0;
    if s1.at(SyntaxKind::COMMA) && !s1.at_end() {
        lemma_type_list_is_clean(s1.bump());
    }
}

/// Type arguments are parsed cleanly.
pub proof fn lemma_type_args_are_clean(s: ParserState)
    requires
        0 <= s.pos,
        grammar::type_args_end(s.tokens, s.pos, s.depth) is Some,
    ensures
        clean(s, model::type_args(s).0, grammar::type_args_end(s.tokens, s.pos, s.depth).unwrap()),
        model::type_args(s).1 is Some,
        grammar::type_args_end(s.tokens, s.pos, s.depth).unwrap() > s.pos,
    decreases s.remaining(), 2nat,
{
    lemma_type_list_is_clean(s.start().bump());
}

/// A tuple type is parsed cleanly.
pub proof fn lemma_tuple_is_clean(s: ParserState)
    requires
        0 <= s.pos,
        grammar::tuple_end(s.tokens, s.pos, s.depth) is Some,
    ensures
        clean(s, model::tuple(s).0, grammar::tuple_end(s.tokens, s.pos, s.depth).unwrap()),
        model::tuple(s).1 is Some,
        grammar::tuple_end(s.tokens, s.pos, s.depth).unwrap() > s.pos,
    decreases s.remaining(), 3nat,
{
    let inside = s.start().bump();
    if !(inside.at(SyntaxKind::R_BRACK) && !inside.at_end()) {
        lemma_type_list_is_clean(inside);
    }
}

/// A type in parentheses is parsed cleanly.
pub proof fn lemma_paren_is_clean(s: ParserState)
    requires
        0 <= s.pos,
        grammar::paren_end(s.tokens, s.pos, s.depth) is Some,
    ensures
        clean(s, model::paren(s).0, grammar::paren_end(s.tokens, s.pos, s.depth).unwrap()),
        model::paren(s).1 is Some,
        grammar::paren_end(s.tokens, s.pos, s.depth).unwrap() > s.pos,
    decreases s.remaining(), 3nat,
{
    lemma_type_is_clean(s.start().bump());
}

/// A type reference is parsed cleanly.
pub proof fn lemma_type_ref_is_clean(s: ParserState, recovery: Set<SyntaxKind>)
    requires
        0 <= s.pos,
        grammar::type_ref_end(s.tokens, s.pos, s.depth) is Some,
    ensures
        clean(
            s,
            model::type_ref(s, recovery).0,
            grammar::type_ref_end(s.tokens, s.pos, s.depth).unwrap(),
        ),
        model::type_ref(s, recovery).1 is Some,
        grammar::type_ref_end(s.tokens, s.pos, s.depth).unwrap() > s.pos,
    decreases s.remaining(), 3nat,
{
    let s0 = s.start();
    assert(model::incorrect_modifier(s0) == (s0, None::<CompletedMarker>));
    lemma_path_is_clean(s0, recovery, true);
    let s3 = model::entity_name(s0, recovery, true).0;
    if !s3.has_linebreak_before(0) && s3.at(SyntaxKind::L_ANGLE) {
        lemma_type_args_are_clean(s3);
    }
}

/// An import type is parsed cleanly.
pub proof fn lemma_import_is_clean(s: ParserState)
    requires
        0 <= s.pos,
        grammar::import_end(s.tokens, s.pos, s.depth) is Some,
    ensures
        clean(s, model::import(s).0, grammar::import_end(s.tokens, s.pos, s.depth).unwrap()),
        model::import(s).1 is Some,
        grammar::import_end(s.tokens, s.pos, s.depth).unwrap() > s.pos,
    decreases s.remaining(), 3nat,
{
    let a = model::import_source(s.start().bump());
    assert(clean(s, a, s.pos + 4));
    let b = if a.at(SyntaxKind::DOT) && !a.at_end() {
        lemma_path_is_clean(a.bump(), model::base_recovery(), false);
        model::entity_name(a.bump(), model::base_recovery(), false).0
    } else {
        a
    };
    if !b.has_linebreak_before(0) && b.at(SyntaxKind::L_ANGLE) {
        lemma_type_args_are_clean(b);
    }
}

/// A `this` predicate is parsed cleanly.
pub proof fn lemma_this_predicate_is_clean(s: ParserState)
    requires
        0 <= s.pos,
        grammar::this_predicate_end(s.tokens, s.pos, s.depth) is Some,
    ensures
        clean(
            s,
            model::this_predicate(s).0,
            grammar::this_predicate_end(s.tokens, s.pos, s.depth).unwrap(),
        ),
        model::this_predicate(s).1 is Some,
        grammar::this_predicate_end(s.tokens, s.pos, s.depth).unwrap() > s.pos,
    decreases s.remaining(), 3nat,
{
    let s0 = s.start();
    let s1 = if s0.cur_text() == "asserts"@ && !s0.at_end() {
        s0.bump()
    } else {
        s0
    };
    let s2 = s1.expect(SyntaxKind::THIS_KW);
    if s2.cur_text() == "is"@ && !s2.at_end() {
        lemma_type_is_clean(s2.bump());
    }
}

/// The type at the cursor is parsed cleanly.
pub proof fn lemma_non_array_type_is_clean(s: ParserState)
    requires
        0 <= s.pos,
        grammar::non_array_type_end(s.tokens, s.pos, s.depth) is Some,
    ensures
        clean(
            s,
            model::non_array_type(s).0,
            grammar::non_array_type_end(s.tokens, s.pos, s.depth).unwrap(),
        ),
        model::non_array_type(s).1 is Some,
        grammar::non_array_type_end(s.tokens, s.pos, s.depth).unwrap() > s.pos,
    decreases s.remaining(), 4nat,
{
    let kind = s.cur();
    if model::is_name_like(kind) {
        if s.cur_text() == "asserts"@ && s.nth(1) == SyntaxKind::THIS_KW {
            lemma_this_predicate_is_clean(s);
        } else if model::primitive_kind(s.cur_text()) is Some && s.nth(1) != SyntaxKind::DOT {
        } else {
            lemma_type_ref_is_clean(s, model::base_recovery());
        }
    } else if model::is_literal_type(kind) {
    } else if kind == SyntaxKind::BACKTICK {
        lemma_template_is_clean(s);
    } else if kind == SyntaxKind::MINUS {
    } else if kind == SyntaxKind::IMPORT_KW {
        lemma_import_is_clean(s);
    } else if kind == SyntaxKind::THIS_KW {
        reveal_strlit("is");
        assert("is"@.len() == 2);
        if s.nth_text(1) == "is"@ {
            lemma_this_predicate_is_clean(s);
        }
    } else if kind == SyntaxKind::TYPEOF_KW {
        lemma_path_is_clean(s.start().bump(), model::base_recovery(), true);
    } else if kind == SyntaxKind::L_BRACK {
        lemma_tuple_is_clean(s);
    } else if kind == SyntaxKind::L_PAREN {
        lemma_paren_is_clean(s);
    }
}

} // verus!
