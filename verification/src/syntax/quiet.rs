//! What is parsed without a diagnostic is a phrase of the language: for each
//! production, the diagnostics only ever grow, and if they did not grow, the grammar
//! finds the production's phrase at the cursor.

use crate::marker::CompletedMarker;
use crate::recovery::lemma_skip_until_lands;
use crate::state::ParserState;
use crate::syntax::grammar;
use crate::syntax::model;
use crate::syntax_kind::SyntaxKind;
use vstd::prelude::*;

verus! {

/// Whether `after` may come of `before` by parsing: the input and the depth are the
/// same, the cursor has not moved back, and no diagnostic has gone.
pub open spec fn onward(before: ParserState, after: ParserState) -> bool {
    &&& after.tokens == before.tokens
    &&& after.depth == before.depth
    &&& after.pos >= before.pos
    &&& after.errors.len() >= before.errors.len()
}

/// Whether nothing was reported between `before` and `after`.
pub open spec fn quiet(before: ParserState, after: ParserState) -> bool {
    after.errors.len() == before.errors.len()
}

/// A name that is parsed quietly is a name.
pub proof fn lemma_quiet_name(s: ParserState, recovery: Set<SyntaxKind>, allow_reserved: bool)
    requires
        0 <= s.pos,
    ensures
        onward(s, model::simple_name(s, recovery, allow_reserved).0),
        quiet(s, model::simple_name(s, recovery, allow_reserved).0) ==> grammar::name_end(
            s.tokens,
            s.pos,
            allow_reserved,
        ) is Some,
{
    lemma_skip_until_lands(s.error(model::type_name_error(s)), recovery, false);
}

/// The rest of a path that is parsed quietly is the rest of a path.
pub proof fn lemma_quiet_path_rest(
    s: ParserState,
    lhs: CompletedMarker,
    recovery: Set<SyntaxKind>,
    allow_reserved: bool,
)
    requires
        0 <= s.pos,
    ensures
        onward(s, model::qualified(s, lhs, recovery, allow_reserved).0),
        quiet(s, model::qualified(s, lhs, recovery, allow_reserved).0) ==> grammar::path_rest_end(
            s.tokens,
            s.pos,
            allow_reserved,
        ) is Some,
    decreases s.remaining(),
{
    if s.at(SyntaxKind::DOT) && !s.at_end() {
        let s1 = s.precede(lhs).bump();
        lemma_quiet_name(s1, recovery, allow_reserved);
        let s2 = model::simple_name(s1, recovery, allow_reserved).0;
        lemma_quiet_path_rest(
            s2.finish(SyntaxKind::TS_QUALIFIED_PATH),
            model::node_around(lhs, s, s2, SyntaxKind::TS_QUALIFIED_PATH),
            recovery,
            allow_reserved,
        );
        if quiet(s, model::qualified(s, lhs, recovery, allow_reserved).0) {
            crate::syntax::valid::lemma_name_is_clean(s1, recovery, allow_reserved);
        }
    }
}

/// An entity name that is parsed quietly is an entity name.
pub proof fn lemma_quiet_path(s: ParserState, recovery: Set<SyntaxKind>, allow_reserved: bool)
    requires
        0 <= s.pos,
    ensures
        onward(s, model::entity_name(s, recovery, allow_reserved).0),
        quiet(s, model::entity_name(s, recovery, allow_reserved).0) ==> grammar::path_end(
            s.tokens,
            s.pos,
            allow_reserved,
        ) is Some,
{
    lemma_quiet_name(s, recovery, false);
    let (s1, first) = model::simple_name(s, recovery, false);
    if first is Some {
        lemma_quiet_path_rest(
            s1,
            first.unwrap(),
            recovery.insert(SyntaxKind::DOT),
            allow_reserved,
        );
    }
}

/// The parts of a template in which nothing was reported and no interpolation was
/// found are chunks of text.
pub proof fn lemma_quiet_chunks(s: ParserState, elements: Seq<CompletedMarker>)
    requires
        0 <= s.pos,
    ensures
        onward(s, model::template_parts(s, elements).0),
        model::template_parts(s, elements).1.len() >= elements.len(),
        model::template_parts(s, elements).1.len() == elements.len() ==> model::template_parts(
            s,
            elements,
        ).0.pos == grammar::chunks_end(s.tokens, s.pos),
    decreases s.remaining(),
{
    if s.at_end() {
    } else if s.at(SyntaxKind::TEMPLATE_CHUNK) {
        lemma_quiet_chunks(s.bump(), elements);
    } else if s.at(SyntaxKind::DOLLARCURLY) {
        model::lemma_skip_braced_advances(s.start().bump(), 0);
        let s1 = model::skip_braced(s.start().bump(), 0).expect(SyntaxKind::R_CURLY);
        lemma_quiet_chunks(
            s1.finish(SyntaxKind::TEMPLATE_ELEMENT),
            elements.push(model::node(s, s1, SyntaxKind::TEMPLATE_ELEMENT)),
        );
    }
}

/// Reporting the interpolations adds one diagnostic for each.
pub proof fn lemma_reports_count(s: ParserState, elements: Seq<CompletedMarker>, i: int)
    requires
        0 <= i <= elements.len(),
    ensures
        model::report_elements(s, elements, i).tokens == s.tokens,
        model::report_elements(s, elements, i).depth == s.depth,
        model::report_elements(s, elements, i).pos == s.pos,
        model::report_elements(s, elements, i).errors.len() == s.errors.len() + elements.len()
            - i,
    decreases elements.len() - i,
{
    if i < elements.len() {
        lemma_reports_count(s.error(model::template_error(elements[i].range)), elements, i + 1);
    }
}

/// A template type that is parsed quietly is a template without interpolations.
pub proof fn lemma_quiet_template_type(s: ParserState)
    requires
        0 <= s.pos,
    ensures
        onward(s, model::template_type(s).0),
        quiet(s, model::template_type(s).0) ==> grammar::template_end(s.tokens, s.pos) is Some,
{
    let s0 = s.start().expect(SyntaxKind::BACKTICK);
    lemma_quiet_chunks(s0, Seq::empty());
    let (s1, inner, elements) = model::template(s);
    lemma_reports_count(s1, elements, 0);
}

/// A type that is parsed quietly is a type.
pub proof fn lemma_quiet_type(s: ParserState)
    requires
        0 <= s.pos,
    ensures
        onward(s, model::ty(s).0),
        quiet(s, model::ty(s).0) ==> grammar::type_end(s.tokens, s.pos, s.depth) is Some,
    decreases s.remaining(), 5nat,
{
    if s.depth < crate::state::MAX_DEPTH {
        lemma_quiet_non_array_type(s.deeper());
    }
}

/// A list of types that is parsed quietly is a list of types.
pub proof fn lemma_quiet_type_list(s: ParserState)
    requires
        0 <= s.pos,
    ensures
        onward(s, model::type_list(s)),
        quiet(s, model::type_list(s)) ==> grammar::type_list_end(s.tokens, s.pos, s.depth)
            is Some,
    decreases s.remaining(), 6nat,
{
    lemma_quiet_type(s);
    let s1 = model::ty(s).0;
    if s1.at(SyntaxKind::COMMA) && !s1.at_end() {
        lemma_quiet_type_list(s1.bump());
        if quiet(s, model::type_list(s)) {
            crate::syntax::valid::lemma_type_is_clean(s);
        }
    } else if quiet(s, s1) {
        crate::syntax::valid::lemma_type_is_clean(s);
    }
}

/// Type arguments that are parsed quietly are type arguments.
pub proof fn lemma_quiet_type_args(s: ParserState)
    requires
        0 <= s.pos,
    ensures
        onward(s, model::type_args(s).0),
        quiet(s, model::type_args(s).0) ==> grammar::type_args_end(s.tokens, s.pos, s.depth)
            is Some,
    decreases s.remaining(), 2nat,
{
    let s0 = s.start();
    if s0.at(SyntaxKind::L_ANGLE) && !s0.at_end() {
        lemma_quiet_type_list(s0.bump());
        if quiet(s, model::type_args(s).0) {
            crate::syntax::valid::lemma_type_list_is_clean(s0.bump());
        }
    }
}

/// A tuple type that is parsed quietly is a tuple type.
pub proof fn lemma_quiet_tuple(s: ParserState)
    requires
        0 <= s.pos,
    ensures
        onward(s, model::tuple(s).0),
        quiet(s, model::tuple(s).0) ==> grammar::tuple_end(s.tokens, s.pos, s.depth) is Some,
    decreases s.remaining(), 3nat,
{
    let s0 = s.start();
    if s0.at(SyntaxKind::L_BRACK) && !s0.at_end() {
        let inside = s0.bump();
        if !(inside.at(SyntaxKind::R_BRACK) && !inside.at_end()) {
            lemma_quiet_type_list(inside);
            if quiet(s, model::tuple(s).0) {
                crate::syntax::valid::lemma_type_list_is_clean(inside);
            }
        }
    }
}

/// A type in parentheses that is parsed quietly is a type in parentheses.
pub proof fn lemma_quiet_paren(s: ParserState)
    requires
        0 <= s.pos,
        !s.at_end(),
        s.at(SyntaxKind::L_PAREN),
    ensures
        onward(s, model::paren(s).0),
        quiet(s, model::paren(s).0) ==> grammar::paren_end(s.tokens, s.pos, s.depth) is Some,
    decreases s.remaining(), 3nat,
{
    let inside = s.start().bump();
    lemma_quiet_type(inside);
    if quiet(s, model::paren(s).0) {
        crate::syntax::valid::lemma_type_is_clean(inside);
    }
}

/// A type reference that is parsed quietly is a type reference.
pub proof fn lemma_quiet_type_ref(s: ParserState, recovery: Set<SyntaxKind>)
    requires
        0 <= s.pos,
    ensures
        onward(s, model::type_ref(s, recovery).0),
        quiet(s, model::type_ref(s, recovery).0) ==> grammar::type_ref_end(
            s.tokens,
            s.pos,
            s.depth,
        ) is Some,
    decreases s.remaining(), 3nat,
{
    let (s1, modifier) = model::incorrect_modifier(s.start());
    let s2 = match modifier {
        Some(m) => s1.error(model::modifier_error(m.range)),
        None => s1,
    };
    lemma_quiet_path(s2, recovery, true);
    model::lemma_entity_name_advances(s2, recovery, true);
    let (s3, name) = model::entity_name(s2, recovery, true);
    if name is Some {
        if !s3.has_linebreak_before(0) && s3.at(SyntaxKind::L_ANGLE) {
            lemma_quiet_type_args(s3);
        }
        if quiet(s, model::type_ref(s, recovery).0) {
            crate::syntax::valid::lemma_path_is_clean(s2, recovery, true);
        }
    } else {
        model::lemma_simple_name_advances(s2, recovery, false);
    }
}

/// An import type that is parsed quietly is an import type.
pub proof fn lemma_quiet_import(s: ParserState)
    requires
        0 <= s.pos,
    ensures
        onward(s, model::import(s).0),
        quiet(s, model::import(s).0) ==> grammar::import_end(s.tokens, s.pos, s.depth) is Some,
    decreases s.remaining(), 3nat,
{
    let s0 = s.start();
    if s0.at(SyntaxKind::IMPORT_KW) && !s0.at_end() {
        let a = model::import_source(s0.bump());
        assert(onward(s, a));
        if a.at(SyntaxKind::DOT) && !a.at_end() {
            lemma_quiet_path(a.bump(), model::base_recovery(), false);
            model::lemma_entity_name_advances(a.bump(), model::base_recovery(), false);
        }
        let b = if a.at(SyntaxKind::DOT) && !a.at_end() {
            model::entity_name(a.bump(), model::base_recovery(), false).0
        } else {
            a
        };
        if !b.has_linebreak_before(0) && b.at(SyntaxKind::L_ANGLE) {
            lemma_quiet_type_args(b);
        }
        if quiet(s, model::import(s).0) {
            assert(quiet(s, a));
            if a.at(SyntaxKind::DOT) && !a.at_end() {
                crate::syntax::valid::lemma_path_is_clean(a.bump(), model::base_recovery(), false);
            }
        }
    }
}

/// A `this` predicate that is parsed quietly is a `this` predicate.
pub proof fn lemma_quiet_this_predicate(s: ParserState)
    requires
        0 <= s.pos,
    ensures
        onward(s, model::this_predicate(s).0),
        quiet(s, model::this_predicate(s).0) ==> grammar::this_predicate_end(
            s.tokens,
            s.pos,
            s.depth,
        ) is Some,
    decreases s.remaining(), 3nat,
{
    let s0 = s.start();
    let s1 = if s0.cur_text() == "asserts"@ && !s0.at_end() {
        s0.bump()
    } else {
        s0
    };
    let s2 = s1.expect(SyntaxKind::THIS_KW);
    if s2.cur_text() == "is"@ && !s2.at_end() {
        lemma_quiet_type(s2.bump());
    }
}

/// The type at the cursor, if it is parsed quietly, is a type of the language.
pub proof fn lemma_quiet_non_array_type(s: ParserState)
    requires
        0 <= s.pos,
    ensures
        onward(s, model::non_array_type(s).0),
        quiet(s, model::non_array_type(s).0) ==> grammar::non_array_type_end(
            s.tokens,
            s.pos,
            s.depth,
        ) is Some,
    decreases s.remaining(), 4nat,
{
    let kind = s.cur();
    if s.at_end() {
        lemma_skip_until_lands(s.error(model::type_error(s)), model::type_recovery(), false);
    } else if model::is_name_like(kind) {
        if s.cur_text() == "asserts"@ && s.nth(1) == SyntaxKind::THIS_KW {
            lemma_quiet_this_predicate(s);
        } else if model::primitive_kind(s.cur_text()) is Some && s.nth(1) != SyntaxKind::DOT {
        } else {
            lemma_quiet_type_ref(s, model::base_recovery());
        }
    } else if model::is_literal_type(kind) {
    } else if kind == SyntaxKind::BACKTICK {
        lemma_quiet_template_type(s);
    } else if kind == SyntaxKind::MINUS {
    } else if kind == SyntaxKind::IMPORT_KW {
        lemma_quiet_import(s);
    } else if kind == SyntaxKind::THIS_KW {
        reveal_strlit("is");
        assert("is"@.len() == 2);
        if s.nth_text(1) == "is"@ {
            lemma_quiet_this_predicate(s);
        }
    } else if kind == SyntaxKind::TYPEOF_KW {
        lemma_quiet_path(s.start().bump(), model::base_recovery(), true);
    } else if kind == SyntaxKind::L_CURLY {
        model::lemma_skip_braced_advances(
            s.start().error(model::object_type_error(s.start().cur_range())).bump(),
            0,
        );
    } else if kind == SyntaxKind::L_BRACK {
        lemma_quiet_tuple(s);
    } else if kind == SyntaxKind::L_PAREN {
        lemma_quiet_paren(s);
    } else {
        lemma_skip_until_lands(s.error(model::type_error(s)), model::type_recovery(), false);
    }
}

} // verus!
