//! What each production does to the state of a parse, as a function from the state
//! before to the state after and the node produced.

use crate::diagnostic::DiagnosticView;
use crate::marker::CompletedMarker;
use crate::state::{ParserState, MAX_DEPTH};
use crate::syntax_kind::SyntaxKind;
use crate::token::TextRange;
use crate::token_set::TokenSet;
use vstd::prelude::*;

verus! {

/// The handle of a node that was started in the state `from` and is finished as a
/// `kind` in the state `to`.
pub open spec fn node(from: ParserState, to: ParserState, kind: SyntaxKind) -> CompletedMarker {
    to.completed(from.events.len() as int, from.cur_range().start, kind)
}

/// The handle of a node that was started in the state `from`, before the finished node
/// `first`, and is finished as a `kind` in the state `to`.
pub open spec fn node_around(
    first: CompletedMarker,
    from: ParserState,
    to: ParserState,
    kind: SyntaxKind,
) -> CompletedMarker {
    to.completed(from.events.len() as int, first.range.start, kind)
}

/// A node of kind `kind` that holds the current token and nothing else.
pub open spec fn leaf(s: ParserState, kind: SyntaxKind) -> (ParserState, Option<CompletedMarker>) {
    let s1 = s.start().bump();
    (s1.finish(kind), Some(node(s, s1, kind)))
}

/// Whether a token of this kind is a literal.
pub open spec fn is_literal(kind: SyntaxKind) -> bool {
    matches!(
        kind,
        SyntaxKind::NUMBER | SyntaxKind::STRING | SyntaxKind::NULL_KW | SyntaxKind::TRUE_KW
            | SyntaxKind::FALSE_KW | SyntaxKind::REGEX
    )
}

/// A literal: a `LITERAL` node around the current token if that is a literal; else
/// nothing happens and there is no node.
pub open spec fn literal(s: ParserState) -> (ParserState, Option<CompletedMarker>) {
    if is_literal(s.cur()) && !s.at_end() {
        leaf(s, SyntaxKind::LITERAL)
    } else {
        (s, None)
    }
}

/// The state after the tokens up to the `}` that closes a brace have been consumed,
/// when `depth` further braces are open. The closing `}` itself is left. If it is
/// missing, the rest of the input is consumed.
pub open spec fn skip_braced(s: ParserState, depth: nat) -> ParserState
    decreases s.remaining(),
{
    if s.at_end() || (depth == 0 && s.at(SyntaxKind::R_CURLY)) {
        s
    } else if s.at(SyntaxKind::L_CURLY) || s.at(SyntaxKind::DOLLARCURLY) {
        skip_braced(s.bump(), depth + 1)
    } else if s.at(SyntaxKind::R_CURLY) {
        skip_braced(s.bump(), (depth - 1) as nat)
    } else {
        skip_braced(s.bump(), depth)
    }
}

/// The parts of a template between its backticks: chunks of text, and interpolations
/// from `${` to the matching `}`, each a `TEMPLATE_ELEMENT` node. `elements` holds the
/// interpolations found before; the result holds those found in all.
pub open spec fn template_parts(s: ParserState, elements: Seq<CompletedMarker>) -> (
    ParserState,
    Seq<CompletedMarker>,
)
    decreases s.remaining(),
{
    if s.at_end() {
        (s, elements)
    } else if s.at(SyntaxKind::TEMPLATE_CHUNK) {
        template_parts(s.bump(), elements)
    } else if s.at(SyntaxKind::DOLLARCURLY) {
        let s1 = skip_braced(s.start().bump(), 0).expect(SyntaxKind::R_CURLY);
        proof {
            lemma_skip_braced_advances(s.start().bump(), 0);
        }
        template_parts(
            s1.finish(SyntaxKind::TEMPLATE_ELEMENT),
            elements.push(node(s, s1, SyntaxKind::TEMPLATE_ELEMENT)),
        )
    } else {
        (s, elements)
    }
}

/// A template: a `TEMPLATE` node that holds the opening backtick, the parts, and the
/// closing backtick. A backtick that is not there is reported. Beside the node, the
/// interpolations of the template are handed out, in their order.
pub open spec fn template(s: ParserState) -> (ParserState, CompletedMarker, Seq<CompletedMarker>) {
    let (s1, elements) = template_parts(s.start().expect(SyntaxKind::BACKTICK), Seq::empty());
    let s2 = s1.expect(SyntaxKind::BACKTICK);
    (s2.finish(SyntaxKind::TEMPLATE), node(s, s2, SyntaxKind::TEMPLATE), elements)
}

/// Skipping to a closing brace never moves the cursor back and touches neither the
/// input nor the diagnostics.
pub proof fn lemma_skip_braced_advances(s: ParserState, depth: nat)
    ensures
        skip_braced(s, depth).tokens == s.tokens,
        skip_braced(s, depth).errors == s.errors,
        skip_braced(s, depth).depth == s.depth,
        skip_braced(s, depth).pos >= s.pos,
    decreases s.remaining(),
{
    if s.at_end() || (depth == 0 && s.at(SyntaxKind::R_CURLY)) {
    } else if s.at(SyntaxKind::L_CURLY) || s.at(SyntaxKind::DOLLARCURLY) {
        lemma_skip_braced_advances(s.bump(), depth + 1);
    } else if s.at(SyntaxKind::R_CURLY) {
        lemma_skip_braced_advances(s.bump(), (depth - 1) as nat);
    } else {
        lemma_skip_braced_advances(s.bump(), depth);
    }
}

/// The kinds at which recovery stops when the caller names no others.
pub open spec fn base_recovery() -> Set<SyntaxKind> {
    Set::<SyntaxKind>::empty().insert(SyntaxKind::VOID_KW).insert(SyntaxKind::IDENT).insert(
        SyntaxKind::AWAIT_KW,
    ).insert(SyntaxKind::NULL_KW).insert(SyntaxKind::BREAK_KW).insert(SyntaxKind::L_BRACK)
}

/// Whether a token of this kind begins a type: `non_array_type` has a production
/// for it.
pub open spec fn begins_type(kind: SyntaxKind) -> bool {
    is_name_like(kind) || is_literal_type(kind) || matches!(
        kind,
        SyntaxKind::BACKTICK | SyntaxKind::MINUS | SyntaxKind::IMPORT_KW | SyntaxKind::THIS_KW
            | SyntaxKind::TYPEOF_KW | SyntaxKind::L_CURLY | SyntaxKind::L_BRACK
            | SyntaxKind::L_PAREN
    )
}

/// The kinds at which recovery stops after a token that cannot begin a type: the base
/// set, and every kind that begins a type.
pub open spec fn type_recovery() -> Set<SyntaxKind> {
    Set::new(|kind: SyntaxKind| base_recovery().contains(kind) || begins_type(kind))
}

/// The recovery set that a caller chose, or the base set where it chose none.
pub open spec fn recovery_or_base(recovery: Option<TokenSet>) -> Set<SyntaxKind> {
    match recovery {
        Some(set) => set@,
        None => base_recovery(),
    }
}

/// The kind of the primitive type that `text` names, if it names one.
pub open spec fn primitive_kind(text: Seq<char>) -> Option<SyntaxKind> {
    if text == "void"@ {
        Some(SyntaxKind::TS_VOID)
    } else if text == "null"@ {
        Some(SyntaxKind::TS_NULL)
    } else if text == "any"@ {
        Some(SyntaxKind::TS_ANY)
    } else if text == "boolean"@ {
        Some(SyntaxKind::TS_BOOLEAN)
    } else if text == "bigint"@ {
        Some(SyntaxKind::TS_BIGINT)
    } else if text == "never"@ {
        Some(SyntaxKind::TS_NEVER)
    } else if text == "number"@ {
        Some(SyntaxKind::TS_NUMBER)
    } else if text == "object"@ {
        Some(SyntaxKind::TS_OBJECT)
    } else if text == "string"@ {
        Some(SyntaxKind::TS_STRING)
    } else if text == "symbol"@ {
        Some(SyntaxKind::TS_SYMBOL)
    } else if text == "unknown"@ {
        Some(SyntaxKind::TS_UNKNOWN)
    } else if text == "undefined"@ {
        Some(SyntaxKind::TS_UNDEFINED)
    } else {
        None
    }
}

/// Whether `text` is an access modifier, which has no place before a type.
pub open spec fn is_modifier(text: Seq<char>) -> bool {
    text == "public"@ || text == "private"@ || text == "protected"@ || text == "readonly"@
}

/// Whether a token of this kind may be a name that begins a type: an identifier, or
/// one of the reserved words that are read as one here.
pub open spec fn is_name_like(kind: SyntaxKind) -> bool {
    matches!(
        kind,
        SyntaxKind::IDENT | SyntaxKind::VOID_KW | SyntaxKind::YIELD_KW | SyntaxKind::NULL_KW
            | SyntaxKind::AWAIT_KW | SyntaxKind::BREAK_KW
    )
}

/// Whether a token of this kind is a literal that stands as a type by itself.
pub open spec fn is_literal_type(kind: SyntaxKind) -> bool {
    matches!(
        kind,
        SyntaxKind::NUMBER | SyntaxKind::STRING | SyntaxKind::TRUE_KW | SyntaxKind::FALSE_KW
            | SyntaxKind::REGEX
    )
}

/// The report of a token that cannot be a type name.
pub open spec fn type_name_error(s: ParserState) -> DiagnosticView {
    DiagnosticView::new(
        "expected a TypeScript type name, but instead found `"@ + s.cur_text() + "`"@,
    ).primary(s.cur_range(), ""@)
}

/// The report of a token that cannot begin a type.
pub open spec fn type_error(s: ParserState) -> DiagnosticView {
    DiagnosticView::new("expected a type"@).primary(s.cur_range(), ""@)
}

/// The report of types nested beyond the limit.
pub open spec fn depth_error(s: ParserState) -> DiagnosticView {
    DiagnosticView::new("nesting too deep"@).primary(s.cur_range(), ""@)
}

/// The report of an access modifier before a type.
pub open spec fn modifier_error(range: TextRange) -> DiagnosticView {
    DiagnosticView::new(
        "a parameter property is only allowed in a constructor implementation"@,
    ).primary(range, ""@)
}

/// The report of an interpolation in a template that stands as a type.
pub open spec fn template_error(range: TextRange) -> DiagnosticView {
    DiagnosticView::new(
        "template literals used as TypeScript types may not contain expressions"@,
    ).primary(range, ""@)
}

/// The report of an object type or a mapped type.
pub open spec fn object_type_error(range: TextRange) -> DiagnosticView {
    DiagnosticView::new("object types and mapped types are not supported"@).primary(range, ""@)
}

/// A type name: a `TS_TYPE_NAME` node around the current token, taken as an
/// identifier, if that token is an identifier, or a reserved word where
/// `allow_reserved` lets one stand. At any other token the error is reported, recovery
/// runs on `recovery`, and there is no node.
pub open spec fn simple_name(s: ParserState, recovery: Set<SyntaxKind>, allow_reserved: bool) -> (
    ParserState,
    Option<CompletedMarker>,
) {
    if !s.at_end() && (s.at(SyntaxKind::IDENT) || (s.cur().keyword() && allow_reserved)) {
        let s1 = s.start().bump_as(SyntaxKind::IDENT);
        (s1.finish(SyntaxKind::TS_TYPE_NAME), Some(node(s, s1, SyntaxKind::TS_TYPE_NAME)))
    } else {
        (s.recover(type_name_error(s), recovery, false), None)
    }
}

/// The rest of a qualified path after the finished node `lhs`: as long as the current
/// token is a `.`, a `TS_QUALIFIED_PATH` node is put around the path so far, the `.`
/// and the type name after it. So `A.B.C` nests to the left.
pub open spec fn qualified(
    s: ParserState,
    lhs: CompletedMarker,
    recovery: Set<SyntaxKind>,
    allow_reserved: bool,
) -> (ParserState, CompletedMarker)
    decreases s.remaining(),
{
    if s.at(SyntaxKind::DOT) && !s.at_end() {
        let s1 = s.precede(lhs).bump();
        let s2 = simple_name(s1, recovery, allow_reserved).0;
        proof {
            lemma_simple_name_advances(s1, recovery, allow_reserved);
        }
        qualified(
            s2.finish(SyntaxKind::TS_QUALIFIED_PATH),
            node_around(lhs, s, s2, SyntaxKind::TS_QUALIFIED_PATH),
            recovery,
            allow_reserved,
        )
    } else {
        (s, lhs)
    }
}

/// An entity name: a type name, then the rest of a qualified path. The first name may
/// not be a reserved word; the names after a `.` may be where `allow_reserved` is set,
/// and recovery within them stops at a `.` too. Without a first name there is no node.
pub open spec fn entity_name(s: ParserState, recovery: Set<SyntaxKind>, allow_reserved: bool) -> (
    ParserState,
    Option<CompletedMarker>,
) {
    let (s1, first) = simple_name(s, recovery, false);
    match first {
        None => (s1, None),
        Some(lhs) => {
            let (s2, path) = qualified(s1, lhs, recovery.insert(SyntaxKind::DOT), allow_reserved);
            (s2, Some(path))
        },
    }
}

/// An access modifier where none belongs: an `ERROR` node around the current token if
/// its text is one; else nothing happens and there is no node.
pub open spec fn incorrect_modifier(s: ParserState) -> (ParserState, Option<CompletedMarker>) {
    if is_modifier(s.cur_text()) && !s.at_end() {
        leaf(s, SyntaxKind::ERROR)
    } else {
        (s, None)
    }
}

/// A type name never moves the cursor back, and leaves the input and the depth as
/// they are. With a node, exactly one token was consumed and nothing was reported.
pub proof fn lemma_simple_name_advances(
    s: ParserState,
    recovery: Set<SyntaxKind>,
    allow_reserved: bool,
)
    ensures
        simple_name(s, recovery, allow_reserved).0.tokens == s.tokens,
        simple_name(s, recovery, allow_reserved).0.depth == s.depth,
        simple_name(s, recovery, allow_reserved).0.pos >= s.pos,
        simple_name(s, recovery, allow_reserved).1 is Some ==> simple_name(
            s,
            recovery,
            allow_reserved,
        ).0.pos == s.pos + 1,
        simple_name(s, recovery, allow_reserved).1 is Some ==> simple_name(
            s,
            recovery,
            allow_reserved,
        ).0.errors == s.errors,
        simple_name(s, recovery, allow_reserved).1 is None ==> simple_name(
            s,
            recovery,
            allow_reserved,
        ).0.errors.len() == s.errors.len() + 1,
{
    crate::recovery::lemma_skip_until_lands(s.error(type_name_error(s)), recovery, false);
}

/// The rest of a qualified path never moves the cursor back, and leaves the input and
/// the depth as they are.
pub proof fn lemma_qualified_advances(
    s: ParserState,
    lhs: CompletedMarker,
    recovery: Set<SyntaxKind>,
    allow_reserved: bool,
)
    ensures
        qualified(s, lhs, recovery, allow_reserved).0.tokens == s.tokens,
        qualified(s, lhs, recovery, allow_reserved).0.depth == s.depth,
        qualified(s, lhs, recovery, allow_reserved).0.pos >= s.pos,
        qualified(s, lhs, recovery, allow_reserved).0.errors.len() >= s.errors.len(),
    decreases s.remaining(),
{
    if s.at(SyntaxKind::DOT) && !s.at_end() {
        let s1 = s.precede(lhs).bump();
        lemma_simple_name_advances(s1, recovery, allow_reserved);
        let s2 = simple_name(s1, recovery, allow_reserved).0;
        lemma_qualified_advances(
            s2.finish(SyntaxKind::TS_QUALIFIED_PATH),
            node_around(lhs, s, s2, SyntaxKind::TS_QUALIFIED_PATH),
            recovery,
            allow_reserved,
        );
    }
}

/// An entity name never moves the cursor back, and leaves the input and the depth as
/// they are. With a node, at least one token was consumed.
pub proof fn lemma_entity_name_advances(
    s: ParserState,
    recovery: Set<SyntaxKind>,
    allow_reserved: bool,
)
    ensures
        entity_name(s, recovery, allow_reserved).0.tokens == s.tokens,
        entity_name(s, recovery, allow_reserved).0.depth == s.depth,
        entity_name(s, recovery, allow_reserved).0.pos >= s.pos,
        entity_name(s, recovery, allow_reserved).1 is Some ==> entity_name(
            s,
            recovery,
            allow_reserved,
        ).0.pos > s.pos,
{
    lemma_simple_name_advances(s, recovery, false);
    let (s1, first) = simple_name(s, recovery, false);
    if first is Some {
        lemma_qualified_advances(
            s1,
            first.unwrap(),
            recovery.insert(SyntaxKind::DOT),
            allow_reserved,
        );
    }
}

/// The state after every interpolation of `elements` from the `i`-th on has been
/// reported.
pub open spec fn report_elements(s: ParserState, elements: Seq<CompletedMarker>, i: int)
    -> ParserState
    decreases elements.len() - i,
{
    if 0 <= i < elements.len() {
        report_elements(s.error(template_error(elements[i].range)), elements, i + 1)
    } else {
        s
    }
}

/// A literal as a type: a `TS_LITERAL` node around the literal at the current token.
pub open spec fn literal_type(s: ParserState) -> (ParserState, Option<CompletedMarker>) {
    let (s1, lit) = literal(s);
    let inner = lit.unwrap();
    let s2 = s1.precede(inner);
    (s2.finish(SyntaxKind::TS_LITERAL), Some(node_around(inner, s1, s2, SyntaxKind::TS_LITERAL)))
}

/// A template as a type: the template is parsed, then each of its interpolations is
/// reported, and a `TS_TEMPLATE` node is put around the template all the same.
pub open spec fn template_type(s: ParserState) -> (ParserState, Option<CompletedMarker>) {
    let (s1, inner, elements) = template(s);
    let s2 = report_elements(s1, elements, 0);
    let s3 = s2.precede(inner);
    (s3.finish(SyntaxKind::TS_TEMPLATE), Some(node_around(inner, s2, s3, SyntaxKind::TS_TEMPLATE)))
}

/// A negative number as a type: a `TS_LITERAL` node that holds the current token, a
/// `-`, and the number after it in a `LITERAL` node. A number that is not there is
/// reported, and the node is made all the same.
pub open spec fn negative_number(s: ParserState) -> (ParserState, Option<CompletedMarker>) {
    let s1 = s.start().bump();
    let s2 = if s1.at(SyntaxKind::NUMBER) && !s1.at_end() {
        leaf(s1, SyntaxKind::LITERAL).0
    } else {
        s1.expect(SyntaxKind::NUMBER)
    };
    (s2.finish(SyntaxKind::TS_LITERAL), Some(node(s, s2, SyntaxKind::TS_LITERAL)))
}

/// A type in parentheses: a `TS_PAREN` node that holds the current token, a `(`, a
/// type, and `)`. A `)` that is not there is reported, and the node is made all the
/// same.
pub open spec fn paren(s: ParserState) -> (ParserState, Option<CompletedMarker>)
    decreases s.remaining(), 3nat,
    when !s.at_end()
{
    let s1 = ty(s.start().bump()).0.expect(SyntaxKind::R_PAREN);
    (s1.finish(SyntaxKind::TS_PAREN), Some(node(s, s1, SyntaxKind::TS_PAREN)))
}

/// A type: the type that `non_array_type` describes, one level of nesting further in.
/// At the limit of nesting the error is reported, nothing is consumed, and there is no
/// node.
pub open spec fn ty(s: ParserState) -> (ParserState, Option<CompletedMarker>)
    decreases s.remaining(), 5nat,
{
    if s.depth >= MAX_DEPTH {
        (s.error(depth_error(s)), None)
    } else {
        let (s1, r) = non_array_type(s.deeper());
        (s1.shallower(), r)
    }
}

/// One or more types with a `,` between each two.
///
/// The last condition of the test always holds, since no production moves the cursor
/// back; it stands there so that the definition is well founded.
pub open spec fn type_list(s: ParserState) -> ParserState
    decreases s.remaining(), 6nat,
{
    let s1 = ty(s).0;
    if s1.at(SyntaxKind::COMMA) && !s1.at_end() && s1.remaining() <= s.remaining() {
        type_list(s1.bump())
    } else {
        s1
    }
}

/// Type arguments: a `TS_TYPE_ARGS` node that holds `<`, a list of types, and `>`.
/// Without the `<` the error is reported and the node is empty.
pub open spec fn type_args(s: ParserState) -> (ParserState, Option<CompletedMarker>)
    decreases s.remaining(), 2nat,
{
    let s0 = s.start();
    let s1 = if s0.at(SyntaxKind::L_ANGLE) && !s0.at_end() {
        type_list(s0.bump()).expect(SyntaxKind::R_ANGLE)
    } else {
        s0.expect(SyntaxKind::L_ANGLE)
    };
    (s1.finish(SyntaxKind::TS_TYPE_ARGS), Some(node(s, s1, SyntaxKind::TS_TYPE_ARGS)))
}

/// A tuple type: a `TS_TUPLE` node that holds `[`, a list of types unless `]` follows
/// at once, and `]`. Without the `[` the error is reported and the node is empty.
pub open spec fn tuple(s: ParserState) -> (ParserState, Option<CompletedMarker>)
    decreases s.remaining(), 3nat,
{
    let s0 = s.start();
    let s1 = if s0.at(SyntaxKind::L_BRACK) && !s0.at_end() {
        let inside = s0.bump();
        if inside.at(SyntaxKind::R_BRACK) && !inside.at_end() {
            inside.bump()
        } else {
            type_list(inside).expect(SyntaxKind::R_BRACK)
        }
    } else {
        s0.expect(SyntaxKind::L_BRACK)
    };
    (s1.finish(SyntaxKind::TS_TUPLE), Some(node(s, s1, SyntaxKind::TS_TUPLE)))
}

/// A type reference: a `TS_TYPE_REF` node that holds an entity name and, if a `<`
/// follows on the same line, type arguments. An access modifier before the name is
/// kept in an `ERROR` node and reported; the parse goes on behind it. Without a name
/// the node is abandoned and there is none.
pub open spec fn type_ref(s: ParserState, recovery: Set<SyntaxKind>) -> (
    ParserState,
    Option<CompletedMarker>,
)
    decreases s.remaining(), 3nat,
{
    let (s1, modifier) = incorrect_modifier(s.start());
    let s2 = match modifier {
        Some(m) => s1.error(modifier_error(m.range)),
        None => s1,
    };
    let (s3, name) = entity_name(s2, recovery, true);
    if name is None {
        (s3.abandon(s.events.len() as int), None)
    } else {
        let s4 = if !s3.has_linebreak_before(0) && s3.at(SyntaxKind::L_ANGLE) {
            proof {
                lemma_entity_name_advances(s2, recovery, true);
            }
            type_args(s3).0
        } else {
            s3
        };
        (s4.finish(SyntaxKind::TS_TYPE_REF), Some(node(s, s4, SyntaxKind::TS_TYPE_REF)))
    }
}

/// The source of an import type: `(`, a string, and `)`. Each one that is not there
/// is reported.
pub open spec fn import_source(s: ParserState) -> ParserState {
    s.expect(SyntaxKind::L_PAREN).expect(SyntaxKind::STRING).expect(SyntaxKind::R_PAREN)
}

/// The path of an import type: a `.` and an entity name, if a `.` is there.
pub open spec fn import_path(s: ParserState) -> ParserState {
    if s.at(SyntaxKind::DOT) && !s.at_end() {
        entity_name(s.bump(), base_recovery(), false).0
    } else {
        s
    }
}

/// An import type: a `TS_IMPORT` node that holds `import`, `(`, a string, `)`, then a
/// `.` and an entity name if a `.` follows, then type arguments if a `<` follows on
/// the same line. Each missing token is reported. Without the `import` the error is
/// reported and the node is empty.
pub open spec fn import(s: ParserState) -> (ParserState, Option<CompletedMarker>)
    decreases s.remaining(), 3nat,
{
    let s0 = s.start();
    let s1 = if s0.at(SyntaxKind::IMPORT_KW) && !s0.at_end() {
        let a = import_source(s0.bump());
        let b = import_path(a);
        if !b.has_linebreak_before(0) && b.at(SyntaxKind::L_ANGLE) {
            proof {
                lemma_entity_name_advances(a.bump(), base_recovery(), false);
            }
            type_args(b).0
        } else {
            b
        }
    } else {
        s0.expect(SyntaxKind::IMPORT_KW)
    };
    (s1.finish(SyntaxKind::TS_IMPORT), Some(node(s, s1, SyntaxKind::TS_IMPORT)))
}

/// A type query: a `TS_TYPE_QUERY` node that holds `typeof` and an entity name.
/// Without the `typeof` the error is reported and the node is empty.
pub open spec fn type_query(s: ParserState) -> (ParserState, Option<CompletedMarker>) {
    let s0 = s.start();
    let s1 = if s0.at(SyntaxKind::TYPEOF_KW) && !s0.at_end() {
        entity_name(s0.bump(), base_recovery(), true).0
    } else {
        s0.expect(SyntaxKind::TYPEOF_KW)
    };
    (s1.finish(SyntaxKind::TS_TYPE_QUERY), Some(node(s, s1, SyntaxKind::TS_TYPE_QUERY)))
}

/// An object type or a mapped type. The grammar of their members is not part of this
/// parser: the type is reported, and a `TS_OBJECT_TYPE` node holds the tokens from `{`
/// to the matching `}` as they stand. Without the `{` the error is reported and the
/// node is empty.
pub open spec fn object_type(s: ParserState) -> (ParserState, Option<CompletedMarker>) {
    let s0 = s.start();
    let s1 = if s0.at(SyntaxKind::L_CURLY) && !s0.at_end() {
        skip_braced(s0.error(object_type_error(s0.cur_range())).bump(), 0).expect(
            SyntaxKind::R_CURLY,
        )
    } else {
        s0.expect(SyntaxKind::L_CURLY)
    };
    (s1.finish(SyntaxKind::TS_OBJECT_TYPE), Some(node(s, s1, SyntaxKind::TS_OBJECT_TYPE)))
}

/// A `this` predicate: `asserts this is T`, `this is T` or `asserts this`, in a
/// `TS_PREDICATE` node. The node is started before anything is known; the word
/// `asserts` is consumed if it is there, `this` is asked for, and `is` with a type is
/// consumed if `is` is there. If none of the three was there, the node is abandoned
/// and there is none.
pub open spec fn this_predicate(s: ParserState) -> (ParserState, Option<CompletedMarker>)
    decreases s.remaining(), 3nat,
{
    let s0 = s.start();
    let asserts = s0.cur_text() == "asserts"@ && !s0.at_end();
    let s1 = if asserts {
        s0.bump()
    } else {
        s0
    };
    let this = s1.at(SyntaxKind::THIS_KW) && !s1.at_end();
    let s2 = s1.expect(SyntaxKind::THIS_KW);
    let is = s2.cur_text() == "is"@ && !s2.at_end();
    let s3 = if is {
        ty(s2.bump()).0
    } else {
        s2
    };
    if asserts || this || is {
        (s3.finish(SyntaxKind::TS_PREDICATE), Some(node(s, s3, SyntaxKind::TS_PREDICATE)))
    } else {
        (s3.abandon(s.events.len() as int), None)
    }
}

/// The type at the current token, chosen by the kind of the token and, for words, by
/// its text.
///
/// - A name: the word `asserts` before `this` begins a `this` predicate. The name of
///   a primitive type that no `.` follows is that type, a node of its own kind around
///   the one token. Any other name begins a type reference.
/// - A literal: a `TS_LITERAL` node around the literal.
/// - A backtick: a template; each of its interpolations is reported once the template
///   is parsed, and a `TS_TEMPLATE` node is put around it all the same.
/// - `-`: a `TS_LITERAL` node that holds the `-` and the number after it; a number
///   that is not there is reported.
/// - `this`: a `this` predicate if the word `is` follows, else a `TS_THIS` node.
/// - `import`, `typeof`, `{`, `[`: an import type, a type query, an object type, a
///   tuple type.
/// - `(`: a `TS_PAREN` node that holds `(`, a type, and `)`; a `)` that is not there
///   is reported.
/// - Any other token, and the end of input: the error is reported, recovery runs on
///   the kinds that begin a type, and there is no node.
pub open spec fn non_array_type(s: ParserState) -> (ParserState, Option<CompletedMarker>)
    decreases s.remaining(), 4nat,
{
    let kind = s.cur();
    if s.at_end() {
        (s.recover(type_error(s), type_recovery(), false), None)
    } else if is_name_like(kind) {
        if s.cur_text() == "asserts"@ && s.nth(1) == SyntaxKind::THIS_KW {
            this_predicate(s)
        } else if primitive_kind(s.cur_text()) is Some && s.nth(1) != SyntaxKind::DOT {
            leaf(s, primitive_kind(s.cur_text()).unwrap())
        } else {
            type_ref(s, base_recovery())
        }
    } else if is_literal_type(kind) {
        literal_type(s)
    } else if kind == SyntaxKind::BACKTICK {
        template_type(s)
    } else if kind == SyntaxKind::MINUS {
        negative_number(s)
    } else if kind == SyntaxKind::IMPORT_KW {
        import(s)
    } else if kind == SyntaxKind::THIS_KW {
        if s.nth_text(1) == "is"@ {
            this_predicate(s)
        } else {
            leaf(s, SyntaxKind::TS_THIS)
        }
    } else if kind == SyntaxKind::TYPEOF_KW {
        type_query(s)
    } else if kind == SyntaxKind::L_CURLY {
        object_type(s)
    } else if kind == SyntaxKind::L_BRACK {
        tuple(s)
    } else if kind == SyntaxKind::L_PAREN {
        paren(s)
    } else {
        (s.recover(type_error(s), type_recovery(), false), None)
    }
}

} // verus!
