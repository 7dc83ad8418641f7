//! The productions of the TypeScript type grammar.
//!
//! Every production takes the parser by exclusive reference and returns the finished
//! node, or nothing where it has reported why there is none. None of them stops the
//! parse: an error becomes a diagnostic, and the production returns.

use crate::diagnostic::Diagnostic;
use crate::marker::CompletedMarker;
use crate::parser::Parser;
use crate::syntax::expr::{leaf, literal, skip_braced, template};
use crate::syntax::grammar;
use crate::syntax::model;
use crate::syntax::quiet::{lemma_quiet_non_array_type, lemma_quiet_type};
use crate::syntax::valid::{lemma_non_array_type_is_clean, lemma_type_is_clean};
use crate::syntax_kind::SyntaxKind;
use crate::text::same_text;
use crate::token_set::TokenSet;
use vstd::prelude::*;
use vstd::string::StringExecFns;

verus! {

/// The kinds at which recovery stops when the caller names no others.
pub fn base_ts_recovery_set() -> (r: TokenSet)
    ensures
        r@ == model::base_recovery(),
{
    TokenSet::empty().with(SyntaxKind::VOID_KW).with(SyntaxKind::IDENT).with(
        SyntaxKind::AWAIT_KW,
    ).with(SyntaxKind::NULL_KW).with(SyntaxKind::BREAK_KW).with(SyntaxKind::L_BRACK)
}

/// The kinds at which recovery stops after a token that cannot begin a type: the base
/// set, and every kind that begins a type.
pub fn ts_type_recovery_set() -> (r: TokenSet)
    ensures
        r@ == model::type_recovery(),
{
    let r = base_ts_recovery_set().union(
        TokenSet::from_kinds(
            &[
                SyntaxKind::IDENT,
                SyntaxKind::VOID_KW,
                SyntaxKind::YIELD_KW,
                SyntaxKind::NULL_KW,
                SyntaxKind::AWAIT_KW,
                SyntaxKind::BREAK_KW,
                SyntaxKind::NUMBER,
                SyntaxKind::STRING,
                SyntaxKind::TRUE_KW,
                SyntaxKind::FALSE_KW,
                SyntaxKind::REGEX,
                SyntaxKind::BACKTICK,
                SyntaxKind::MINUS,
                SyntaxKind::IMPORT_KW,
                SyntaxKind::THIS_KW,
                SyntaxKind::TYPEOF_KW,
                SyntaxKind::L_CURLY,
                SyntaxKind::L_BRACK,
                SyntaxKind::L_PAREN,
            ],
        ),
    );
    proof {
        assert(r@ =~= model::type_recovery());
    }
    r
}

fn recovery_or_base(recovery: Option<TokenSet>) -> (r: TokenSet)
    ensures
        r@ == model::recovery_or_base(recovery),
{
    match recovery {
        Some(set) => set,
        None => base_ts_recovery_set(),
    }
}

/// The kind of the primitive type that `text` names, if it names one.
pub fn primitive_kind(text: &str) -> (r: Option<SyntaxKind>)
    ensures
        r == model::primitive_kind(text@),
{
    if same_text(text, "void") {
        Some(SyntaxKind::TS_VOID)
    } else if same_text(text, "null") {
        Some(SyntaxKind::TS_NULL)
    } else if same_text(text, "any") {
        Some(SyntaxKind::TS_ANY)
    } else if same_text(text, "boolean") {
        Some(SyntaxKind::TS_BOOLEAN)
    } else if same_text(text, "bigint") {
        Some(SyntaxKind::TS_BIGINT)
    } else if same_text(text, "never") {
        Some(SyntaxKind::TS_NEVER)
    } else if same_text(text, "number") {
        Some(SyntaxKind::TS_NUMBER)
    } else if same_text(text, "object") {
        Some(SyntaxKind::TS_OBJECT)
    } else if same_text(text, "string") {
        Some(SyntaxKind::TS_STRING)
    } else if same_text(text, "symbol") {
        Some(SyntaxKind::TS_SYMBOL)
    } else if same_text(text, "unknown") {
        Some(SyntaxKind::TS_UNKNOWN)
    } else if same_text(text, "undefined") {
        Some(SyntaxKind::TS_UNDEFINED)
    } else {
        None
    }
}

/// Parses a type name: an identifier, or a reserved word where `allow_reserved` lets
/// one stand, which is then taken as an identifier with its text unchanged.
///
/// At any other token the error is reported and recovery runs on `recovery_set`, or on
/// the base set where that is `None`.
pub fn ts_type_name(p: &mut Parser, recovery_set: Option<TokenSet>, allow_reserved: bool) -> (r:
    Option<CompletedMarker>)
    requires
        old(p)@.wf(),
    ensures
        (final(p)@, r) == model::simple_name(
            old(p)@,
            model::recovery_or_base(recovery_set),
            allow_reserved,
        ),
        final(p)@.wf(),
        final(p)@.extends(old(p)@),
        r is Some <==> !old(p)@.at_end() && (old(p)@.at(SyntaxKind::IDENT)
            || (old(p)@.cur().keyword() && allow_reserved)),
        r is Some ==> final(p)@.has_node(r.unwrap()),
        r is Some ==> r.unwrap().kind == SyntaxKind::TS_TYPE_NAME,
        r is Some ==> final(p)@.pos == old(p)@.pos + 1,
        r is Some ==> final(p)@.errors == old(p)@.errors,
        r is None ==> final(p)@.errors == old(p)@.errors.push(model::type_name_error(old(p)@)),
{
    if !p.at_end() && (p.at(SyntaxKind::IDENT) || (p.cur().is_keyword() && allow_reserved)) {
        let m = p.start();
        p.bump_remap(SyntaxKind::IDENT);
        let node = m.complete(p, SyntaxKind::TS_TYPE_NAME);
        return Some(node);
    }
    let set = recovery_or_base(recovery_set);
    let mut message = String::from_str("expected a TypeScript type name, but instead found `");
    message.append(p.cur_src());
    message.append("`");
    let err = Diagnostic { message, primary: None, secondary: Vec::new() }.primary(
        p.cur_range(),
        "",
    );
    proof {
        assert(err@.secondary =~= Seq::empty());
    }
    p.err_recover(err, set, false);
    None
}

/// Parses an entity name: a type name, then any number of `.` and a type name. Each
/// `.` puts a `TS_QUALIFIED_PATH` node around the path before it, so `A.B.C` is the
/// path `A.B` followed by `C`.
///
/// The first name may not be a reserved word; if it is missing there is no node. In
/// the names after a `.` recovery stops at a `.` as well.
pub fn ts_entity_name(p: &mut Parser, recovery_set: Option<TokenSet>, allow_reserved: bool) -> (r:
    Option<CompletedMarker>)
    requires
        old(p)@.wf(),
    ensures
        (final(p)@, r) == model::entity_name(
            old(p)@,
            model::recovery_or_base(recovery_set),
            allow_reserved,
        ),
        final(p)@.wf(),
        final(p)@.extends(old(p)@),
        r is Some <==> !old(p)@.at_end() && old(p)@.at(SyntaxKind::IDENT),
        r is Some ==> final(p)@.has_node(r.unwrap()) && final(p)@.pos > old(p)@.pos,
        r is None ==> final(p)@.errors.len() > old(p)@.errors.len(),
{
    let init = match ts_type_name(p, recovery_set, false) {
        Some(node) => node,
        None => {
            return None;
        },
    };
    let ghost named = p@;
    let mut lhs = init;
    let set = recovery_or_base(recovery_set).with(SyntaxKind::DOT);
    while p.at(SyntaxKind::DOT) && !p.at_end()
        invariant
            p@.wf(),
            p@.extends(named),
            p@.has_node(lhs),
            set@ == model::recovery_or_base(recovery_set).insert(SyntaxKind::DOT),
            model::qualified(p@, lhs, set@, allow_reserved) == model::qualified(
                named,
                init,
                set@,
                allow_reserved,
            ),
        decreases p@.remaining(),
    {
        let m = lhs.precede(p);
        p.bump_any();
        ts_type_name(p, Some(set), allow_reserved);
        lhs = m.complete(p, SyntaxKind::TS_QUALIFIED_PATH);
    }
    Some(lhs)
}

/// Consumes an access modifier (`public`, `private`, `protected`, `readonly`) into an
/// `ERROR` node, if the current token is one.
pub fn maybe_eat_incorrect_modifier(p: &mut Parser) -> (r: Option<CompletedMarker>)
    requires
        old(p)@.wf(),
    ensures
        (final(p)@, r) == model::incorrect_modifier(old(p)@),
        final(p)@.wf(),
        final(p)@.extends(old(p)@),
        r is Some <==> model::is_modifier(old(p)@.cur_text()) && !old(p)@.at_end(),
        r is Some ==> final(p)@.has_node(r.unwrap()),
        final(p)@.errors == old(p)@.errors,
{
    let text = p.cur_src();
    if (same_text(text, "public") || same_text(text, "private") || same_text(text, "protected")
        || same_text(text, "readonly")) && !p.at_end() {
        Some(leaf(p, SyntaxKind::ERROR))
    } else {
        None
    }
}

/// Parses a type query: `typeof` and an entity name.
pub fn ts_type_query(p: &mut Parser) -> (r: Option<CompletedMarker>)
    requires
        old(p)@.wf(),
    ensures
        (final(p)@, r) == model::type_query(old(p)@),
        final(p)@.wf(),
        final(p)@.extends(old(p)@),
        r is Some,
        final(p)@.has_node(r.unwrap()),
{
    let m = p.start();
    if p.expect(SyntaxKind::TYPEOF_KW) {
        ts_entity_name(p, None, true);
    }
    let node = m.complete(p, SyntaxKind::TS_TYPE_QUERY);
    Some(node)
}

/// Parses an object type or a mapped type. The members are not parsed: the type is
/// reported, and the tokens from `{` to the matching `}` are kept in the node as they
/// stand.
pub fn ts_object_type(p: &mut Parser) -> (r: Option<CompletedMarker>)
    requires
        old(p)@.wf(),
    ensures
        (final(p)@, r) == model::object_type(old(p)@),
        final(p)@.wf(),
        final(p)@.extends(old(p)@),
        r is Some,
        final(p)@.has_node(r.unwrap()),
{
    let m = p.start();
    if p.at(SyntaxKind::L_CURLY) && !p.at_end() {
        let err = p.err_builder("object types and mapped types are not supported").primary(
            p.cur_range(),
            "",
        );
        p.error(err);
        p.bump_any();
        skip_braced(p);
        p.expect(SyntaxKind::R_CURLY);
    } else {
        p.expect(SyntaxKind::L_CURLY);
    }
    let node = m.complete(p, SyntaxKind::TS_OBJECT_TYPE);
    Some(node)
}

/// Parses a type.
///
/// Types nest through this function, and it keeps count: one level further in than
/// `MAX_DEPTH` it reports that the nesting is too deep, consumes nothing, and returns
/// no node.
pub fn ts_type(p: &mut Parser) -> (r: Option<CompletedMarker>)
    requires
        old(p)@.wf(),
    ensures
        (final(p)@, r) == model::ty(old(p)@),
        final(p)@.wf(),
        final(p)@.extends(old(p)@),
        r is Some ==> final(p)@.has_node(r.unwrap()),
        grammar::type_end(old(p)@.tokens, old(p)@.pos, old(p)@.depth) matches Some(end) ==> (r
            is Some && final(p)@.errors == old(p)@.errors && final(p)@.pos == end),
        grammar::type_end(old(p)@.tokens, old(p)@.pos, old(p)@.depth) is None
            ==> final(p)@.errors.len() > old(p)@.errors.len(),
        r is None ==> final(p)@.errors.len() > old(p)@.errors.len(),
    decreases old(p)@.remaining(), 5nat,
{
    proof {
        if grammar::type_end(p@.tokens, p@.pos, p@.depth) is Some {
            lemma_type_is_clean(p@);
        } else {
            lemma_quiet_type(p@);
        }
    }
    if !p.enter() {
        let err = p.err_builder("nesting too deep").primary(p.cur_range(), "");
        p.error(err);
        return None;
    }
    let r = ts_non_array_type(p);
    p.leave();
    r
}

/// Parses one or more types with a `,` between each two.
fn ts_type_list(p: &mut Parser)
    requires
        old(p)@.wf(),
    ensures
        final(p)@ == model::type_list(old(p)@),
        final(p)@.wf(),
        final(p)@.extends(old(p)@),
    decreases old(p)@.remaining(), 6nat,
{
    let ghost before = p@;
    loop
        invariant_except_break
            before == old(p)@,
            p@.wf(),
            p@.extends(before),
            model::type_list(p@) == model::type_list(before),
        ensures
            p@.wf(),
            p@.extends(before),
            p@ == model::type_list(before),
        decreases p@.remaining(),
    {
        ts_type(p);
        if p.at(SyntaxKind::COMMA) && !p.at_end() {
            p.bump_any();
        } else {
            break ;
        }
    }
}

/// Parses type arguments: `<`, one or more types with a `,` between each two, and `>`.
pub fn ts_type_args(p: &mut Parser) -> (r: Option<CompletedMarker>)
    requires
        old(p)@.wf(),
    ensures
        (final(p)@, r) == model::type_args(old(p)@),
        final(p)@.wf(),
        final(p)@.extends(old(p)@),
        r is Some,
        final(p)@.has_node(r.unwrap()),
    decreases old(p)@.remaining(), 2nat,
{
    let m = p.start();
    if p.expect(SyntaxKind::L_ANGLE) {
        ts_type_list(p);
        p.expect(SyntaxKind::R_ANGLE);
    }
    let node = m.complete(p, SyntaxKind::TS_TYPE_ARGS);
    Some(node)
}

/// Parses a tuple type: `[`, types with a `,` between each two, and `]`.
pub fn ts_tuple(p: &mut Parser) -> (r: Option<CompletedMarker>)
    requires
        old(p)@.wf(),
    ensures
        (final(p)@, r) == model::tuple(old(p)@),
        final(p)@.wf(),
        final(p)@.extends(old(p)@),
        r is Some,
        final(p)@.has_node(r.unwrap()),
    decreases old(p)@.remaining(), 3nat,
{
    let m = p.start();
    if p.expect(SyntaxKind::L_BRACK) {
        if !p.eat(SyntaxKind::R_BRACK) {
            ts_type_list(p);
            p.expect(SyntaxKind::R_BRACK);
        }
    }
    let node = m.complete(p, SyntaxKind::TS_TUPLE);
    Some(node)
}

/// Parses the source of an import type: `(`, a string, and `)`.
fn ts_import_source(p: &mut Parser)
    requires
        old(p)@.wf(),
    ensures
        final(p)@ == model::import_source(old(p)@),
        final(p)@.wf(),
        final(p)@.extends(old(p)@),
{
    p.expect(SyntaxKind::L_PAREN);
    p.expect(SyntaxKind::STRING);
    p.expect(SyntaxKind::R_PAREN);
}

/// Parses the path of an import type: a `.` and an entity name, if a `.` is there.
fn ts_import_path(p: &mut Parser)
    requires
        old(p)@.wf(),
    ensures
        final(p)@ == model::import_path(old(p)@),
        final(p)@.wf(),
        final(p)@.extends(old(p)@),
{
    if p.eat(SyntaxKind::DOT) {
        ts_entity_name(p, None, false);
    }
}

/// Parses an import type: `import`, `(`, a string, `)`, then a `.` and an entity name
/// if a `.` follows, then type arguments if a `<` follows on the same line.
pub fn ts_import(p: &mut Parser) -> (r: Option<CompletedMarker>)
    requires
        old(p)@.wf(),
    ensures
        (final(p)@, r) == model::import(old(p)@),
        final(p)@.wf(),
        final(p)@.extends(old(p)@),
        r is Some,
        final(p)@.has_node(r.unwrap()),
    decreases old(p)@.remaining(), 3nat,
{
    let m = p.start();
    if p.expect(SyntaxKind::IMPORT_KW) {
        ts_import_source(p);
        ts_import_path(p);
        if !p.has_linebreak_before_n(0) && p.at(SyntaxKind::L_ANGLE) {
            ts_type_args(p);
        }
    }
    let node = m.complete(p, SyntaxKind::TS_IMPORT);
    Some(node)
}

/// Parses a type reference: an entity name and, if a `<` follows on the same line,
/// type arguments.
///
/// An access modifier before the name is consumed into an `ERROR` node and reported;
/// the reference is parsed behind it as if it were not there. If the name is missing,
/// the node is abandoned and there is none; `recovery_set` is where recovery stops
/// then.
pub fn ts_type_ref(p: &mut Parser, recovery_set: Option<TokenSet>) -> (r: Option<CompletedMarker>)
    requires
        old(p)@.wf(),
    ensures
        (final(p)@, r) == model::type_ref(old(p)@, model::recovery_or_base(recovery_set)),
        final(p)@.wf(),
        final(p)@.extends(old(p)@),
        r is Some ==> final(p)@.has_node(r.unwrap()),
        r is Some ==> r.unwrap().kind == SyntaxKind::TS_TYPE_REF,
        r is None ==> final(p)@.errors.len() > old(p)@.errors.len(),
    decreases old(p)@.remaining(), 3nat,
{
    let m = p.start();
    if let Some(err_m) = maybe_eat_incorrect_modifier(p) {
        let err = p.err_builder(
            "a parameter property is only allowed in a constructor implementation",
        ).primary(err_m.range(), "");
        p.error(err);
    }
    if ts_entity_name(p, recovery_set, true).is_none() {
        m.abandon(p);
        return None;
    }
    if !p.has_linebreak_before_n(0) && p.at(SyntaxKind::L_ANGLE) {
        ts_type_args(p);
    }
    let node = m.complete(p, SyntaxKind::TS_TYPE_REF);
    Some(node)
}

/// Parses a `this` predicate: `asserts this is T`, `this is T` or `asserts this`.
///
/// The node is started before anything is known. If neither `asserts`, nor `this`,
/// nor `is` was there, the node is abandoned and there is none; the missing `this`
/// has been reported by then.
pub fn ts_this_predicate(p: &mut Parser) -> (r: Option<CompletedMarker>)
    requires
        old(p)@.wf(),
    ensures
        (final(p)@, r) == model::this_predicate(old(p)@),
        final(p)@.wf(),
        final(p)@.extends(old(p)@),
        r is Some ==> final(p)@.has_node(r.unwrap()),
        r is Some ==> r.unwrap().kind == SyntaxKind::TS_PREDICATE,
        old(p)@.cur_text() == "asserts"@ && !old(p)@.at_end() ==> r is Some,
        old(p)@.at(SyntaxKind::THIS_KW) && !old(p)@.at_end() ==> r is Some,
        r is None ==> final(p)@.pos == old(p)@.pos,
        r is None ==> final(p)@.errors.len() > old(p)@.errors.len(),
    decreases old(p)@.remaining(), 3nat,
{
    let m = p.start();
    let mut advanced = false;

    if same_text(p.cur_src(), "asserts") && !p.at_end() {
        p.bump_any();
        advanced = true;
    }
    if p.expect(SyntaxKind::THIS_KW) {
        advanced = true;
    }
    if same_text(p.cur_src(), "is") && !p.at_end() {
        p.bump_any();
        ts_type(p);
        advanced = true;
    }
    if !advanced {
        m.abandon(p);
        None
    } else {
        Some(m.complete(p, SyntaxKind::TS_PREDICATE))
    }
}

/// Parses a literal as a type. The current token is a literal.
fn ts_literal_type(p: &mut Parser) -> (r: Option<CompletedMarker>)
    requires
        old(p)@.wf(),
        !old(p)@.at_end(),
        model::is_literal_type(old(p)@.cur()),
    ensures
        (final(p)@, r) == model::literal_type(old(p)@),
        final(p)@.wf(),
        final(p)@.extends(old(p)@),
        r is Some,
        final(p)@.has_node(r.unwrap()),
{
    let inner = literal(p).unwrap();
    let m = inner.precede(p);
    let node = m.complete(p, SyntaxKind::TS_LITERAL);
    Some(node)
}

/// Parses a template as a type. Interpolations are not rejected while the template
/// is parsed; each is reported afterwards, and the node is made all the same.
fn ts_template_type(p: &mut Parser) -> (r: Option<CompletedMarker>)
    requires
        old(p)@.wf(),
    ensures
        (final(p)@, r) == model::template_type(old(p)@),
        final(p)@.wf(),
        final(p)@.extends(old(p)@),
        r is Some,
        final(p)@.has_node(r.unwrap()),
{
    let (inner, elements) = template(p);
    let ghost parsed = p@;
    let mut i: usize = 0;
    while i < elements.len()
        invariant
            i <= elements.len(),
            p@.wf(),
            p@.extends(parsed),
            p@.has_node(inner),
            model::report_elements(p@, elements@, i as int) == model::report_elements(
                parsed,
                elements@,
                0,
            ),
        decreases elements.len() - i,
    {
        let err = p.err_builder(
            "template literals used as TypeScript types may not contain expressions",
        ).primary(elements[i].range(), "");
        p.error(err);
        i += 1;
    }
    let m = inner.precede(p);
    let node = m.complete(p, SyntaxKind::TS_TEMPLATE);
    Some(node)
}

/// Parses a negative number as a type. The current token is the `-`.
fn ts_negative_number(p: &mut Parser) -> (r: Option<CompletedMarker>)
    requires
        old(p)@.wf(),
        !old(p)@.at_end(),
    ensures
        (final(p)@, r) == model::negative_number(old(p)@),
        final(p)@.wf(),
        final(p)@.extends(old(p)@),
        r is Some,
        final(p)@.has_node(r.unwrap()),
{
    let m = p.start();
    p.bump_any();
    if p.at(SyntaxKind::NUMBER) && !p.at_end() {
        leaf(p, SyntaxKind::LITERAL);
    } else {
        p.expect(SyntaxKind::NUMBER);
    }
    let node = m.complete(p, SyntaxKind::TS_LITERAL);
    Some(node)
}

/// Parses a type in parentheses. The current token is the `(`. The type inside has
/// run its own recovery, so a missing `)` is only reported.
fn ts_paren(p: &mut Parser) -> (r: Option<CompletedMarker>)
    requires
        old(p)@.wf(),
        !old(p)@.at_end(),
    ensures
        (final(p)@, r) == model::paren(old(p)@),
        final(p)@.wf(),
        final(p)@.extends(old(p)@),
        r is Some,
        final(p)@.has_node(r.unwrap()),
    decreases old(p)@.remaining(), 3nat,
{
    let m = p.start();
    p.bump_any();
    ts_type(p);
    p.expect(SyntaxKind::R_PAREN);
    let node = m.complete(p, SyntaxKind::TS_PAREN);
    Some(node)
}

/// Parses the type at the current token. The production is chosen by the kind of the
/// token and, for words, by its text:
///
/// - the word `asserts` before `this`: a `this` predicate;
/// - the name of a primitive type that no `.` follows: that type;
/// - any other name: a type reference;
/// - a literal: a literal type;
/// - a backtick: a template type, whose interpolations are reported once it is parsed;
/// - `-`: a negative number as a literal type;
/// - `this`: a `this` predicate if the word `is` follows, else the `this` type;
/// - `import`, `typeof`, `{`, `[`: an import type, a type query, an object type, a
///   tuple type;
/// - `(`: a type in parentheses.
///
/// At any other token, and at the end of input, it reports that a type was expected,
/// lets recovery run on the kinds that begin a type, and returns no node.
pub fn ts_non_array_type(p: &mut Parser) -> (r: Option<CompletedMarker>)
    requires
        old(p)@.wf(),
    ensures
        (final(p)@, r) == model::non_array_type(old(p)@),
        final(p)@.wf(),
        final(p)@.extends(old(p)@),
        r is Some ==> final(p)@.has_node(r.unwrap()),
        grammar::non_array_type_end(old(p)@.tokens, old(p)@.pos, old(p)@.depth) matches Some(
            end,
        ) ==> (r is Some && final(p)@.errors == old(p)@.errors && final(p)@.pos == end),
        grammar::non_array_type_end(old(p)@.tokens, old(p)@.pos, old(p)@.depth) is None
            ==> final(p)@.errors.len() > old(p)@.errors.len(),
        r is None ==> final(p)@.errors.len() > old(p)@.errors.len(),
    decreases old(p)@.remaining(), 4nat,
{
    proof {
        if grammar::non_array_type_end(p@.tokens, p@.pos, p@.depth) is Some {
            lemma_non_array_type_is_clean(p@);
        } else {
            lemma_quiet_non_array_type(p@);
        }
    }
    if p.at_end() {
        let err = p.err_builder("expected a type").primary(p.cur_range(), "");
        p.err_recover(err, ts_type_recovery_set(), false);
        return None;
    }
    match p.cur() {
        SyntaxKind::IDENT
        | SyntaxKind::VOID_KW
        | SyntaxKind::YIELD_KW
        | SyntaxKind::NULL_KW
        | SyntaxKind::AWAIT_KW
        | SyntaxKind::BREAK_KW => {
            if same_text(p.cur_src(), "asserts") && p.nth_at(1, SyntaxKind::THIS_KW) {
                return ts_this_predicate(p);
            }
            match primitive_kind(p.cur_src()) {
                Some(kind) if !p.nth_at(1, SyntaxKind::DOT) => Some(leaf(p, kind)),
                _ => ts_type_ref(p, None),
            }
        },
        SyntaxKind::NUMBER
        | SyntaxKind::STRING
        | SyntaxKind::TRUE_KW
        | SyntaxKind::FALSE_KW
        | SyntaxKind::REGEX => ts_literal_type(p),
        SyntaxKind::BACKTICK => ts_template_type(p),
        SyntaxKind::MINUS => ts_negative_number(p),
        SyntaxKind::IMPORT_KW => ts_import(p),
        SyntaxKind::THIS_KW => {
            if same_text(p.nth_src(1), "is") {
                ts_this_predicate(p)
            } else {
                Some(leaf(p, SyntaxKind::TS_THIS))
            }
        },
        SyntaxKind::TYPEOF_KW => ts_type_query(p),
        SyntaxKind::L_CURLY => ts_object_type(p),
        SyntaxKind::L_BRACK => ts_tuple(p),
        SyntaxKind::L_PAREN => ts_paren(p),
        _ => {
            let err = p.err_builder("expected a type").primary(p.cur_range(), "");
            p.err_recover(err, ts_type_recovery_set(), false);
            None
        },
    }
}

} // verus!
