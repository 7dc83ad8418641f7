use rslint_parser::event::Event;
use rslint_parser::parser::Parser;
use rslint_parser::syntax::expr::{leaf, literal, skip_braced, template};
use rslint_parser::syntax::typescript::{
    base_ts_recovery_set, maybe_eat_incorrect_modifier, primitive_kind, ts_entity_name, ts_import,
    ts_non_array_type, ts_object_type, ts_this_predicate, ts_tuple, ts_type, ts_type_args,
    ts_type_name, ts_type_query, ts_type_recovery_set, ts_type_ref,
};
use rslint_parser::syntax_kind::SyntaxKind;
use rslint_parser::token::{TextRange, Token};
use rslint_parser::token_set::TokenSet;

/// Tokens from kinds and texts, laid out with one space between each two.
fn lex(parts: &[(SyntaxKind, &str)]) -> Vec<Token> {
    let mut out = Vec::new();
    let mut at = 0;
    for (kind, text) in parts {
        out.push(Token::new(*kind, at, at + text.len(), text, false));
        at += text.len() + 1;
    }
    out
}

fn start() -> Event {
    Event::Start { precedes: None }
}

fn token(kind: SyntaxKind, index: usize) -> Event {
    Event::Token { kind, index }
}

fn finish(kind: SyntaxKind) -> Event {
    Event::Finish { kind }
}

fn kinds_of_finished_nodes(p: &Parser) -> Vec<SyntaxKind> {
    let mut out = Vec::new();
    for e in p.events() {
        if let Event::Finish { kind } = e {
            out.push(*kind);
        }
    }
    out
}

#[test]
fn every_primitive_name_has_its_kind() {
    let table = [
        ("void", SyntaxKind::TS_VOID),
        ("null", SyntaxKind::TS_NULL),
        ("any", SyntaxKind::TS_ANY),
        ("boolean", SyntaxKind::TS_BOOLEAN),
        ("bigint", SyntaxKind::TS_BIGINT),
        ("never", SyntaxKind::TS_NEVER),
        ("number", SyntaxKind::TS_NUMBER),
        ("object", SyntaxKind::TS_OBJECT),
        ("string", SyntaxKind::TS_STRING),
        ("symbol", SyntaxKind::TS_SYMBOL),
        ("unknown", SyntaxKind::TS_UNKNOWN),
        ("undefined", SyntaxKind::TS_UNDEFINED),
    ];
    for (text, kind) in table {
        assert_eq!(primitive_kind(text), Some(kind));
    }
    assert_eq!(primitive_kind("String"), None);
    assert_eq!(primitive_kind(""), None);
    assert_eq!(primitive_kind("strin"), None);
    assert_eq!(primitive_kind("this"), None);
}

#[test]
fn reserved_words_void_and_null_are_primitive_types() {
    let mut p = Parser::new(lex(&[(SyntaxKind::VOID_KW, "void")]));
    assert_eq!(ts_type(&mut p).unwrap().kind, SyntaxKind::TS_VOID);
    assert_eq!(
        p.events().clone(),
        vec![start(), token(SyntaxKind::VOID_KW, 0), finish(SyntaxKind::TS_VOID)]
    );
    let mut q = Parser::new(lex(&[(SyntaxKind::NULL_KW, "null")]));
    assert_eq!(ts_type(&mut q).unwrap().kind, SyntaxKind::TS_NULL);
    assert!(p.errors().is_empty() && q.errors().is_empty());
}

#[test]
fn primitive_name_before_a_dot_is_a_namespace() {
    let mut p = Parser::new(lex(&[
        (SyntaxKind::IDENT, "string"),
        (SyntaxKind::DOT, "."),
        (SyntaxKind::IDENT, "Foo"),
    ]));
    let node = ts_non_array_type(&mut p).unwrap();
    assert_eq!(node.kind, SyntaxKind::TS_TYPE_REF);
    assert_eq!(
        kinds_of_finished_nodes(&p),
        vec![
            SyntaxKind::TS_TYPE_NAME,
            SyntaxKind::TS_TYPE_NAME,
            SyntaxKind::TS_QUALIFIED_PATH,
            SyntaxKind::TS_TYPE_REF
        ]
    );
    assert!(p.errors().is_empty());
    assert!(p.at_end());
}

#[test]
fn type_name_takes_an_identifier() {
    let mut p = Parser::new(lex(&[(SyntaxKind::IDENT, "Foo"), (SyntaxKind::SEMICOLON, ";")]));
    let node = ts_type_name(&mut p, None, false).unwrap();
    assert_eq!(node.kind, SyntaxKind::TS_TYPE_NAME);
    assert_eq!(node.start_pos, 0);
    assert_eq!(node.finish_pos, 2);
    assert_eq!(node.range, TextRange { start: 0, end: 3 });
    assert_eq!(
        p.events().clone(),
        vec![start(), token(SyntaxKind::IDENT, 0), finish(SyntaxKind::TS_TYPE_NAME)]
    );
    assert_eq!(p.position(), 1);
    assert!(p.errors().is_empty());
}

#[test]
fn type_name_takes_a_reserved_word_only_where_allowed() {
    let mut p = Parser::new(lex(&[(SyntaxKind::CLASS_KW, "class")]));
    let node = ts_type_name(&mut p, None, true).unwrap();
    assert_eq!(node.kind, SyntaxKind::TS_TYPE_NAME);
    // The token is logged as an identifier; its text is still `class`.
    assert_eq!(
        p.events().clone(),
        vec![start(), token(SyntaxKind::IDENT, 0), finish(SyntaxKind::TS_TYPE_NAME)]
    );
    assert_eq!(p.logged_text(), "class");
    assert!(p.errors().is_empty());

    let mut q = Parser::new(lex(&[(SyntaxKind::CLASS_KW, "class")]));
    assert_eq!(ts_type_name(&mut q, None, false), None);
    assert_eq!(q.errors().len(), 1);
    assert_eq!(
        q.errors()[0].message,
        "expected a TypeScript type name, but instead found `class`"
    );
    assert_eq!(q.errors()[0].primary.as_ref().unwrap().range, TextRange { start: 0, end: 5 });
    assert_eq!(q.errors()[0].primary.as_ref().unwrap().text, "");
    assert!(q.errors()[0].secondary.is_empty());
    // `class` is not in the base set: it is skipped as an error node.
    assert_eq!(
        q.events().clone(),
        vec![
            Event::Error { index: 0 },
            start(),
            token(SyntaxKind::CLASS_KW, 0),
            finish(SyntaxKind::ERROR)
        ]
    );
    assert!(q.at_end());
}

#[test]
fn type_name_failure_stops_at_the_recovery_set() {
    // `void` is in the base set: reported, not consumed.
    let mut p = Parser::new(lex(&[(SyntaxKind::VOID_KW, "void")]));
    assert_eq!(ts_type_name(&mut p, None, false), None);
    assert_eq!(p.errors().len(), 1);
    assert_eq!(p.events().clone(), vec![Event::Error { index: 0 }]);
    assert_eq!(p.position(), 0);

    // With a set of the caller's, the base set does not count.
    let mut q = Parser::new(lex(&[
        (SyntaxKind::VOID_KW, "void"),
        (SyntaxKind::PLUS, "+"),
        (SyntaxKind::SEMICOLON, ";"),
        (SyntaxKind::IDENT, "x"),
    ]));
    assert_eq!(ts_type_name(&mut q, Some(TokenSet::singleton(SyntaxKind::SEMICOLON)), false), None);
    assert_eq!(q.position(), 2);
    assert_eq!(
        q.events().clone(),
        vec![
            Event::Error { index: 0 },
            start(),
            token(SyntaxKind::VOID_KW, 0),
            finish(SyntaxKind::ERROR),
            start(),
            token(SyntaxKind::PLUS, 1),
            finish(SyntaxKind::ERROR),
        ]
    );
}

#[test]
fn type_name_at_end_of_input_reports_empty_text() {
    let mut p = Parser::new(Vec::new());
    assert_eq!(ts_type_name(&mut p, None, true), None);
    assert_eq!(p.errors()[0].message, "expected a TypeScript type name, but instead found ``");
    assert_eq!(p.errors()[0].primary.as_ref().unwrap().range, TextRange { start: 0, end: 0 });
    assert_eq!(p.events().clone(), vec![Event::Error { index: 0 }]);
}

#[test]
fn entity_name_allows_reserved_words_behind_a_dot() {
    let input = || lex(&[(SyntaxKind::IDENT, "a"), (SyntaxKind::DOT, "."), (SyntaxKind::NEW_KW, "new")]);
    let mut p = Parser::new(input());
    let node = ts_entity_name(&mut p, None, true).unwrap();
    assert_eq!(node.kind, SyntaxKind::TS_QUALIFIED_PATH);
    assert_eq!(node.start_pos, 3);
    assert_eq!(node.range, TextRange { start: 0, end: 7 });
    assert!(p.errors().is_empty());
    assert!(p.at_end());

    let mut q = Parser::new(input());
    let node = ts_entity_name(&mut q, None, false).unwrap();
    assert_eq!(node.kind, SyntaxKind::TS_QUALIFIED_PATH);
    assert_eq!(q.errors().len(), 1);
    assert_eq!(q.errors()[0].message, "expected a TypeScript type name, but instead found `new`");
    // `new` is neither in the base set nor a `.`: skipped inside the path.
    assert_eq!(
        q.events().clone(),
        vec![
            start(),
            token(SyntaxKind::IDENT, 0),
            finish(SyntaxKind::TS_TYPE_NAME),
            Event::Start { precedes: Some(0) },
            token(SyntaxKind::DOT, 1),
            Event::Error { index: 0 },
            start(),
            token(SyntaxKind::NEW_KW, 2),
            finish(SyntaxKind::ERROR),
            finish(SyntaxKind::TS_QUALIFIED_PATH),
        ]
    );
}

#[test]
fn entity_name_does_not_start_with_a_reserved_word() {
    let mut p = Parser::new(lex(&[(SyntaxKind::YIELD_KW, "yield")]));
    assert_eq!(ts_entity_name(&mut p, None, true), None);
    assert_eq!(p.errors().len(), 1);
    assert_eq!(p.errors()[0].message, "expected a TypeScript type name, but instead found `yield`");
}

#[test]
fn entity_name_resynchronises_on_the_next_dot() {
    // `a..b`: the name between the dots is missing; the second dot is where
    // recovery stops, so the path goes on.
    let mut p = Parser::new(lex(&[
        (SyntaxKind::IDENT, "a"),
        (SyntaxKind::DOT, "."),
        (SyntaxKind::DOT, "."),
        (SyntaxKind::IDENT, "b"),
    ]));
    let node = ts_entity_name(&mut p, Some(TokenSet::empty()), false).unwrap();
    assert_eq!(node.kind, SyntaxKind::TS_QUALIFIED_PATH);
    assert_eq!(p.errors().len(), 1);
    assert_eq!(p.errors()[0].message, "expected a TypeScript type name, but instead found `.`");
    assert_eq!(
        kinds_of_finished_nodes(&p),
        vec![
            SyntaxKind::TS_TYPE_NAME,
            SyntaxKind::TS_QUALIFIED_PATH,
            SyntaxKind::TS_TYPE_NAME,
            SyntaxKind::TS_QUALIFIED_PATH
        ]
    );
    assert!(p.at_end());
}

#[test]
fn access_modifier_before_a_type_is_reported_and_kept() {
    let mut p = Parser::new(lex(&[(SyntaxKind::IDENT, "public"), (SyntaxKind::IDENT, "Foo")]));
    let node = ts_type_ref(&mut p, None).unwrap();
    assert_eq!(node.kind, SyntaxKind::TS_TYPE_REF);
    assert_eq!(node.range, TextRange { start: 0, end: 10 });
    assert_eq!(p.errors().len(), 1);
    assert_eq!(
        p.errors()[0].message,
        "a parameter property is only allowed in a constructor implementation"
    );
    assert_eq!(p.errors()[0].primary.as_ref().unwrap().range, TextRange { start: 0, end: 6 });
    assert_eq!(
        p.events().clone(),
        vec![
            start(),
            start(),
            token(SyntaxKind::IDENT, 0),
            finish(SyntaxKind::ERROR),
            Event::Error { index: 0 },
            start(),
            token(SyntaxKind::IDENT, 1),
            finish(SyntaxKind::TS_TYPE_NAME),
            finish(SyntaxKind::TS_TYPE_REF),
        ]
    );
}

#[test]
fn every_access_modifier_is_recognised() {
    for word in ["public", "private", "protected", "readonly"] {
        let mut p = Parser::new(lex(&[(SyntaxKind::IDENT, word)]));
        let node = maybe_eat_incorrect_modifier(&mut p).unwrap();
        assert_eq!(node.kind, SyntaxKind::ERROR);
        assert_eq!(p.position(), 1);
        assert!(p.errors().is_empty());
    }
    let mut p = Parser::new(lex(&[(SyntaxKind::IDENT, "static")]));
    assert_eq!(maybe_eat_incorrect_modifier(&mut p), None);
    assert!(p.events().is_empty());
    assert_eq!(p.position(), 0);
    let mut q = Parser::new(Vec::new());
    assert_eq!(maybe_eat_incorrect_modifier(&mut q), None);
}

#[test]
fn type_ref_without_a_name_is_abandoned() {
    let mut p = Parser::new(lex(&[(SyntaxKind::SEMICOLON, ";")]));
    assert_eq!(ts_type_ref(&mut p, Some(TokenSet::singleton(SyntaxKind::SEMICOLON))), None);
    assert_eq!(p.errors().len(), 1);
    assert_eq!(p.events().clone(), vec![Event::Tombstone, Event::Error { index: 0 }]);
    assert_eq!(p.position(), 0);
}

#[test]
fn type_ref_takes_type_arguments_on_the_same_line() {
    let mut p = Parser::new(lex(&[
        (SyntaxKind::IDENT, "Map"),
        (SyntaxKind::L_ANGLE, "<"),
        (SyntaxKind::IDENT, "string"),
        (SyntaxKind::COMMA, ","),
        (SyntaxKind::IDENT, "Foo"),
        (SyntaxKind::R_ANGLE, ">"),
    ]));
    let node = ts_type(&mut p).unwrap();
    assert_eq!(node.kind, SyntaxKind::TS_TYPE_REF);
    assert_eq!(
        kinds_of_finished_nodes(&p),
        vec![
            SyntaxKind::TS_TYPE_NAME,
            SyntaxKind::TS_STRING,
            SyntaxKind::TS_TYPE_NAME,
            SyntaxKind::TS_TYPE_REF,
            SyntaxKind::TS_TYPE_ARGS,
            SyntaxKind::TS_TYPE_REF
        ]
    );
    assert!(p.errors().is_empty());
    assert!(p.at_end());
}

#[test]
fn angle_bracket_on_the_next_line_ends_the_type_ref() {
    let mut p = Parser::new(vec![
        Token::new(SyntaxKind::IDENT, 0, 3, "Map", false),
        Token::new(SyntaxKind::L_ANGLE, 4, 5, "<", true),
    ]);
    let node = ts_type(&mut p).unwrap();
    assert_eq!(node.kind, SyntaxKind::TS_TYPE_REF);
    assert_eq!(p.position(), 1);
    assert!(p.errors().is_empty());
}

#[test]
fn type_args_report_what_is_missing() {
    let mut p = Parser::new(lex(&[(SyntaxKind::L_ANGLE, "<"), (SyntaxKind::IDENT, "Foo")]));
    let node = ts_type_args(&mut p).unwrap();
    assert_eq!(node.kind, SyntaxKind::TS_TYPE_ARGS);
    assert_eq!(p.errors().len(), 1);
    assert_eq!(p.errors()[0].message, "expected >");

    let mut q = Parser::new(lex(&[(SyntaxKind::IDENT, "Foo")]));
    let node = ts_type_args(&mut q).unwrap();
    assert_eq!(node.kind, SyntaxKind::TS_TYPE_ARGS);
    assert_eq!(q.errors().len(), 1);
    assert_eq!(q.errors()[0].message, "expected <");
    assert_eq!(
        q.events().clone(),
        vec![start(), Event::Error { index: 0 }, finish(SyntaxKind::TS_TYPE_ARGS)]
    );
    assert_eq!(q.position(), 0);
}

#[test]
fn literal_types() {
    for (kind, text) in [
        (SyntaxKind::NUMBER, "42"),
        (SyntaxKind::STRING, "\"a\""),
        (SyntaxKind::TRUE_KW, "true"),
        (SyntaxKind::FALSE_KW, "false"),
        (SyntaxKind::REGEX, "/a/"),
    ] {
        let mut p = Parser::new(lex(&[(kind, text)]));
        let node = ts_type(&mut p).unwrap();
        assert_eq!(node.kind, SyntaxKind::TS_LITERAL);
        assert_eq!(node.start_pos, 3);
        assert_eq!(node.finish_pos, 4);
        assert_eq!(
            p.events().clone(),
            vec![
                start(),
                token(kind, 0),
                finish(SyntaxKind::LITERAL),
                Event::Start { precedes: Some(0) },
                finish(SyntaxKind::TS_LITERAL),
            ]
        );
        assert!(p.errors().is_empty());
    }
}

#[test]
fn literal_leaves_other_tokens_alone() {
    let mut p = Parser::new(lex(&[(SyntaxKind::IDENT, "x")]));
    assert_eq!(literal(&mut p), None);
    assert!(p.events().is_empty());
    let mut q = Parser::new(lex(&[(SyntaxKind::NULL_KW, "null")]));
    assert_eq!(literal(&mut q).unwrap().kind, SyntaxKind::LITERAL);
    let mut e = Parser::new(Vec::new());
    assert_eq!(literal(&mut e), None);
}

#[test]
fn leaf_wraps_one_token() {
    let mut p = Parser::new(lex(&[(SyntaxKind::PLUS, "+"), (SyntaxKind::PLUS, "+")]));
    let node = leaf(&mut p, SyntaxKind::ERROR);
    assert_eq!(node.kind, SyntaxKind::ERROR);
    assert_eq!((node.start_pos, node.finish_pos), (0, 2));
    assert_eq!(node.range, TextRange { start: 0, end: 1 });
    assert_eq!(p.position(), 1);
}

#[test]
fn minus_without_a_number_is_reported_and_still_a_node() {
    let mut p = Parser::new(lex(&[(SyntaxKind::MINUS, "-"), (SyntaxKind::IDENT, "x")]));
    let node = ts_type(&mut p).unwrap();
    assert_eq!(node.kind, SyntaxKind::TS_LITERAL);
    assert_eq!(p.errors().len(), 1);
    assert_eq!(p.errors()[0].message, "expected NUMBER");
    assert_eq!(p.errors()[0].primary.as_ref().unwrap().range, TextRange { start: 2, end: 3 });
    assert_eq!(
        p.events().clone(),
        vec![
            start(),
            token(SyntaxKind::MINUS, 0),
            Event::Error { index: 0 },
            finish(SyntaxKind::TS_LITERAL)
        ]
    );
    assert_eq!(p.position(), 1);
}

#[test]
fn bare_this_and_this_predicates() {
    let mut p = Parser::new(lex(&[(SyntaxKind::THIS_KW, "this")]));
    assert_eq!(ts_type(&mut p).unwrap().kind, SyntaxKind::TS_THIS);
    assert!(p.errors().is_empty());

    let mut q = Parser::new(lex(&[
        (SyntaxKind::THIS_KW, "this"),
        (SyntaxKind::IDENT, "is"),
        (SyntaxKind::IDENT, "string"),
    ]));
    let node = ts_type(&mut q).unwrap();
    assert_eq!(node.kind, SyntaxKind::TS_PREDICATE);
    assert_eq!(
        q.events().clone(),
        vec![
            start(),
            token(SyntaxKind::THIS_KW, 0),
            token(SyntaxKind::IDENT, 1),
            start(),
            token(SyntaxKind::IDENT, 2),
            finish(SyntaxKind::TS_STRING),
            finish(SyntaxKind::TS_PREDICATE),
        ]
    );
    assert!(q.errors().is_empty());

    let mut r = Parser::new(lex(&[(SyntaxKind::IDENT, "asserts"), (SyntaxKind::THIS_KW, "this")]));
    let node = ts_type(&mut r).unwrap();
    assert_eq!(node.kind, SyntaxKind::TS_PREDICATE);
    assert_eq!(
        r.events().clone(),
        vec![
            start(),
            token(SyntaxKind::IDENT, 0),
            token(SyntaxKind::THIS_KW, 1),
            finish(SyntaxKind::TS_PREDICATE),
        ]
    );
    assert!(r.errors().is_empty());
}

#[test]
fn asserts_alone_is_a_type_name() {
    let mut p = Parser::new(lex(&[(SyntaxKind::IDENT, "asserts"), (SyntaxKind::IDENT, "x")]));
    assert_eq!(ts_type(&mut p).unwrap().kind, SyntaxKind::TS_TYPE_REF);
    assert_eq!(p.position(), 1);
    assert!(p.errors().is_empty());
}

#[test]
fn predicate_without_any_of_its_words_is_abandoned() {
    let mut p = Parser::new(lex(&[(SyntaxKind::SEMICOLON, ";")]));
    assert_eq!(ts_this_predicate(&mut p), None);
    assert_eq!(p.errors().len(), 1);
    assert_eq!(p.errors()[0].message, "expected this");
    assert_eq!(p.events().clone(), vec![Event::Tombstone, Event::Error { index: 0 }]);
    assert_eq!(p.position(), 0);
}

#[test]
fn predicate_with_asserts_but_no_this_is_reported_and_kept() {
    let mut p = Parser::new(lex(&[(SyntaxKind::IDENT, "asserts"), (SyntaxKind::IDENT, "x")]));
    let node = ts_this_predicate(&mut p).unwrap();
    assert_eq!(node.kind, SyntaxKind::TS_PREDICATE);
    assert_eq!(p.errors().len(), 1);
    assert_eq!(p.errors()[0].message, "expected this");
    assert_eq!(p.position(), 1);
}

#[test]
fn predicate_with_is_but_no_this() {
    let mut p = Parser::new(lex(&[(SyntaxKind::IDENT, "is"), (SyntaxKind::IDENT, "Foo")]));
    let node = ts_this_predicate(&mut p).unwrap();
    assert_eq!(node.kind, SyntaxKind::TS_PREDICATE);
    assert_eq!(p.errors().len(), 1);
    assert_eq!(p.errors()[0].message, "expected this");
    assert!(p.at_end());
}

#[test]
fn template_without_interpolation_is_clean() {
    let mut p = Parser::new(lex(&[
        (SyntaxKind::BACKTICK, "`"),
        (SyntaxKind::TEMPLATE_CHUNK, "abc"),
        (SyntaxKind::BACKTICK, "`"),
    ]));
    let node = ts_type(&mut p).unwrap();
    assert_eq!(node.kind, SyntaxKind::TS_TEMPLATE);
    assert_eq!(
        p.events().clone(),
        vec![
            start(),
            token(SyntaxKind::BACKTICK, 0),
            token(SyntaxKind::TEMPLATE_CHUNK, 1),
            token(SyntaxKind::BACKTICK, 2),
            finish(SyntaxKind::TEMPLATE),
            Event::Start { precedes: Some(0) },
            finish(SyntaxKind::TS_TEMPLATE),
        ]
    );
    assert!(p.errors().is_empty());
}

#[test]
fn every_interpolation_of_a_template_type_is_reported() {
    // `a${x}b${ {y} }`
    let tokens = vec![
        Token::new(SyntaxKind::BACKTICK, 0, 1, "`", false),
        Token::new(SyntaxKind::TEMPLATE_CHUNK, 1, 2, "a", false),
        Token::new(SyntaxKind::DOLLARCURLY, 2, 4, "${", false),
        Token::new(SyntaxKind::IDENT, 4, 5, "x", false),
        Token::new(SyntaxKind::R_CURLY, 5, 6, "}", false),
        Token::new(SyntaxKind::TEMPLATE_CHUNK, 6, 7, "b", false),
        Token::new(SyntaxKind::DOLLARCURLY, 7, 9, "${", false),
        Token::new(SyntaxKind::L_CURLY, 10, 11, "{", false),
        Token::new(SyntaxKind::IDENT, 11, 12, "y", false),
        Token::new(SyntaxKind::R_CURLY, 12, 13, "}", false),
        Token::new(SyntaxKind::R_CURLY, 14, 15, "}", false),
        Token::new(SyntaxKind::BACKTICK, 15, 16, "`", false),
    ];
    let mut p = Parser::new(tokens.clone());
    let (node, elements) = template(&mut p);
    assert_eq!(node.kind, SyntaxKind::TEMPLATE);
    assert_eq!(elements.len(), 2);
    assert_eq!(elements[0].kind, SyntaxKind::TEMPLATE_ELEMENT);
    assert_eq!(elements[0].range, TextRange { start: 2, end: 6 });
    assert_eq!(elements[1].range, TextRange { start: 7, end: 15 });
    assert!(p.errors().is_empty());
    assert!(p.at_end());

    let mut q = Parser::new(tokens);
    let node = ts_type(&mut q).unwrap();
    assert_eq!(node.kind, SyntaxKind::TS_TEMPLATE);
    assert_eq!(q.errors().len(), 2);
    for (i, range) in [(0, TextRange { start: 2, end: 6 }), (1, TextRange { start: 7, end: 15 })] {
        assert_eq!(
            q.errors()[i].message,
            "template literals used as TypeScript types may not contain expressions"
        );
        assert_eq!(q.errors()[i].primary.as_ref().unwrap().range, range);
    }
    // The reports come after the template is parsed and before the type is finished.
    let n = q.events().len();
    assert_eq!(q.events()[n - 5], finish(SyntaxKind::TEMPLATE));
    assert_eq!(q.events()[n - 4], Event::Error { index: 0 });
    assert_eq!(q.events()[n - 3], Event::Error { index: 1 });
    assert_eq!(q.events()[n - 2], Event::Start { precedes: Some(0) });
    assert_eq!(q.events()[n - 1], finish(SyntaxKind::TS_TEMPLATE));
    assert!(q.at_end());
}

#[test]
fn unterminated_template_is_reported() {
    let mut p = Parser::new(lex(&[(SyntaxKind::BACKTICK, "`"), (SyntaxKind::TEMPLATE_CHUNK, "abc")]));
    let node = ts_type(&mut p).unwrap();
    assert_eq!(node.kind, SyntaxKind::TS_TEMPLATE);
    assert_eq!(p.errors().len(), 1);
    assert_eq!(p.errors()[0].message, "expected `");

    let mut q = Parser::new(lex(&[
        (SyntaxKind::BACKTICK, "`"),
        (SyntaxKind::DOLLARCURLY, "${"),
        (SyntaxKind::IDENT, "x"),
    ]));
    let (_, elements) = template(&mut q);
    assert_eq!(elements.len(), 1);
    assert_eq!(q.errors().len(), 2);
    assert_eq!(q.errors()[0].message, "expected }");
    assert_eq!(q.errors()[1].message, "expected `");
    assert!(q.at_end());
}

#[test]
fn skip_braced_stops_at_the_matching_brace() {
    let mut p = Parser::new(lex(&[
        (SyntaxKind::IDENT, "a"),
        (SyntaxKind::L_CURLY, "{"),
        (SyntaxKind::R_CURLY, "}"),
        (SyntaxKind::DOLLARCURLY, "${"),
        (SyntaxKind::R_CURLY, "}"),
        (SyntaxKind::R_CURLY, "}"),
        (SyntaxKind::IDENT, "b"),
    ]));
    skip_braced(&mut p);
    assert_eq!(p.position(), 5);
    assert_eq!(p.events().len(), 5);
    assert!(p.errors().is_empty());

    let mut q = Parser::new(lex(&[(SyntaxKind::L_CURLY, "{"), (SyntaxKind::IDENT, "a")]));
    skip_braced(&mut q);
    assert!(q.at_end());

    let mut r = Parser::new(lex(&[(SyntaxKind::R_CURLY, "}")]));
    skip_braced(&mut r);
    assert_eq!(r.position(), 0);
}

#[test]
fn tuple_types() {
    let mut p = Parser::new(lex(&[(SyntaxKind::L_BRACK, "["), (SyntaxKind::R_BRACK, "]")]));
    let node = ts_type(&mut p).unwrap();
    assert_eq!(node.kind, SyntaxKind::TS_TUPLE);
    assert_eq!(
        p.events().clone(),
        vec![
            start(),
            token(SyntaxKind::L_BRACK, 0),
            token(SyntaxKind::R_BRACK, 1),
            finish(SyntaxKind::TS_TUPLE)
        ]
    );
    assert!(p.errors().is_empty());

    let mut q = Parser::new(lex(&[
        (SyntaxKind::L_BRACK, "["),
        (SyntaxKind::IDENT, "string"),
        (SyntaxKind::COMMA, ","),
        (SyntaxKind::NUMBER, "1"),
        (SyntaxKind::R_BRACK, "]"),
    ]));
    let node = ts_tuple(&mut q).unwrap();
    assert_eq!(node.kind, SyntaxKind::TS_TUPLE);
    assert_eq!(
        kinds_of_finished_nodes(&q),
        vec![
            SyntaxKind::TS_STRING,
            SyntaxKind::LITERAL,
            SyntaxKind::TS_LITERAL,
            SyntaxKind::TS_TUPLE
        ]
    );
    assert!(q.errors().is_empty());
    assert!(q.at_end());

    let mut r = Parser::new(lex(&[(SyntaxKind::L_BRACK, "["), (SyntaxKind::IDENT, "string")]));
    assert_eq!(ts_tuple(&mut r).unwrap().kind, SyntaxKind::TS_TUPLE);
    assert_eq!(r.errors().len(), 1);
    assert_eq!(r.errors()[0].message, "expected ]");

    let mut s = Parser::new(lex(&[(SyntaxKind::IDENT, "string")]));
    assert_eq!(ts_tuple(&mut s).unwrap().kind, SyntaxKind::TS_TUPLE);
    assert_eq!(s.errors()[0].message, "expected [");
    assert_eq!(s.position(), 0);
}

#[test]
fn trailing_comma_in_a_tuple_is_reported() {
    let mut p = Parser::new(lex(&[
        (SyntaxKind::L_BRACK, "["),
        (SyntaxKind::IDENT, "string"),
        (SyntaxKind::COMMA, ","),
        (SyntaxKind::R_BRACK, "]"),
    ]));
    assert_eq!(ts_type(&mut p).unwrap().kind, SyntaxKind::TS_TUPLE);
    // `]` is no place to resume a type: recovery skips it, and then it is missed.
    let messages: Vec<&str> = p.errors().iter().map(|e| e.message.as_str()).collect();
    assert_eq!(messages, vec!["expected a type", "expected ]"]);
    assert!(p.at_end());
}

#[test]
fn type_queries() {
    let mut p = Parser::new(lex(&[
        (SyntaxKind::TYPEOF_KW, "typeof"),
        (SyntaxKind::IDENT, "a"),
        (SyntaxKind::DOT, "."),
        (SyntaxKind::IDENT, "b"),
    ]));
    let node = ts_type(&mut p).unwrap();
    assert_eq!(node.kind, SyntaxKind::TS_TYPE_QUERY);
    assert_eq!(
        kinds_of_finished_nodes(&p),
        vec![
            SyntaxKind::TS_TYPE_NAME,
            SyntaxKind::TS_TYPE_NAME,
            SyntaxKind::TS_QUALIFIED_PATH,
            SyntaxKind::TS_TYPE_QUERY
        ]
    );
    assert!(p.errors().is_empty());

    let mut q = Parser::new(lex(&[(SyntaxKind::TYPEOF_KW, "typeof")]));
    assert_eq!(ts_type_query(&mut q).unwrap().kind, SyntaxKind::TS_TYPE_QUERY);
    assert_eq!(q.errors().len(), 1);
    assert_eq!(q.errors()[0].message, "expected a TypeScript type name, but instead found ``");

    let mut r = Parser::new(lex(&[(SyntaxKind::IDENT, "a")]));
    assert_eq!(ts_type_query(&mut r).unwrap().kind, SyntaxKind::TS_TYPE_QUERY);
    assert_eq!(r.errors()[0].message, "expected typeof");
    assert_eq!(r.position(), 0);
}

#[test]
fn import_types() {
    let mut p = Parser::new(lex(&[
        (SyntaxKind::IMPORT_KW, "import"),
        (SyntaxKind::L_PAREN, "("),
        (SyntaxKind::STRING, "\"m\""),
        (SyntaxKind::R_PAREN, ")"),
        (SyntaxKind::DOT, "."),
        (SyntaxKind::IDENT, "A"),
        (SyntaxKind::L_ANGLE, "<"),
        (SyntaxKind::IDENT, "string"),
        (SyntaxKind::R_ANGLE, ">"),
    ]));
    let node = ts_type(&mut p).unwrap();
    assert_eq!(node.kind, SyntaxKind::TS_IMPORT);
    assert_eq!(
        kinds_of_finished_nodes(&p),
        vec![
            SyntaxKind::TS_TYPE_NAME,
            SyntaxKind::TS_STRING,
            SyntaxKind::TS_TYPE_ARGS,
            SyntaxKind::TS_IMPORT
        ]
    );
    assert!(p.errors().is_empty());
    assert!(p.at_end());

    let mut q = Parser::new(lex(&[(SyntaxKind::IMPORT_KW, "import"), (SyntaxKind::STRING, "\"m\"")]));
    assert_eq!(ts_import(&mut q).unwrap().kind, SyntaxKind::TS_IMPORT);
    let messages: Vec<&str> = q.errors().iter().map(|e| e.message.as_str()).collect();
    assert_eq!(messages, vec!["expected (", "expected )"]);
    assert!(q.at_end());

    let mut r = Parser::new(lex(&[(SyntaxKind::IDENT, "x")]));
    assert_eq!(ts_import(&mut r).unwrap().kind, SyntaxKind::TS_IMPORT);
    assert_eq!(r.errors()[0].message, "expected import");
    assert_eq!(r.position(), 0);
}

#[test]
fn object_types_are_reported_and_kept_whole() {
    let mut p = Parser::new(lex(&[
        (SyntaxKind::L_CURLY, "{"),
        (SyntaxKind::IDENT, "a"),
        (SyntaxKind::COLON, ":"),
        (SyntaxKind::L_CURLY, "{"),
        (SyntaxKind::R_CURLY, "}"),
        (SyntaxKind::R_CURLY, "}"),
        (SyntaxKind::IDENT, "next"),
    ]));
    let node = ts_type(&mut p).unwrap();
    assert_eq!(node.kind, SyntaxKind::TS_OBJECT_TYPE);
    assert_eq!(node.range, TextRange { start: 0, end: 11 });
    assert_eq!(p.position(), 6);
    assert_eq!(p.errors().len(), 1);
    assert_eq!(p.errors()[0].message, "object types and mapped types are not supported");
    assert_eq!(p.errors()[0].primary.as_ref().unwrap().range, TextRange { start: 0, end: 1 });

    let mut q = Parser::new(lex(&[(SyntaxKind::L_CURLY, "{"), (SyntaxKind::IDENT, "a")]));
    assert_eq!(ts_object_type(&mut q).unwrap().kind, SyntaxKind::TS_OBJECT_TYPE);
    let messages: Vec<&str> = q.errors().iter().map(|e| e.message.as_str()).collect();
    assert_eq!(messages, vec!["object types and mapped types are not supported", "expected }"]);

    let mut r = Parser::new(lex(&[(SyntaxKind::IDENT, "a")]));
    assert_eq!(ts_object_type(&mut r).unwrap().kind, SyntaxKind::TS_OBJECT_TYPE);
    assert_eq!(r.errors()[0].message, "expected {");
}

#[test]
fn nested_parentheses() {
    let mut p = Parser::new(lex(&[
        (SyntaxKind::L_PAREN, "("),
        (SyntaxKind::L_PAREN, "("),
        (SyntaxKind::IDENT, "Foo"),
        (SyntaxKind::R_PAREN, ")"),
        (SyntaxKind::R_PAREN, ")"),
    ]));
    let node = ts_type(&mut p).unwrap();
    assert_eq!(node.kind, SyntaxKind::TS_PAREN);
    assert_eq!(
        kinds_of_finished_nodes(&p),
        vec![
            SyntaxKind::TS_TYPE_NAME,
            SyntaxKind::TS_TYPE_REF,
            SyntaxKind::TS_PAREN,
            SyntaxKind::TS_PAREN
        ]
    );
    assert!(p.errors().is_empty());
    assert!(p.at_end());
}

#[test]
fn a_token_that_begins_no_type_is_reported_and_skipped() {
    let mut p = Parser::new(lex(&[
        (SyntaxKind::SEMICOLON, ";"),
        (SyntaxKind::R_PAREN, ")"),
        (SyntaxKind::IDENT, "Foo"),
    ]));
    assert_eq!(ts_non_array_type(&mut p), None);
    assert_eq!(p.errors().len(), 1);
    assert_eq!(p.errors()[0].message, "expected a type");
    assert_eq!(p.errors()[0].primary.as_ref().unwrap().range, TextRange { start: 0, end: 1 });
    assert_eq!(
        p.events().clone(),
        vec![
            Event::Error { index: 0 },
            start(),
            token(SyntaxKind::SEMICOLON, 0),
            finish(SyntaxKind::ERROR),
            start(),
            token(SyntaxKind::R_PAREN, 1),
            finish(SyntaxKind::ERROR),
        ]
    );
    // Recovery stopped at a token that begins a type.
    assert_eq!(p.position(), 2);
    assert_eq!(ts_non_array_type(&mut p).unwrap().kind, SyntaxKind::TS_TYPE_REF);
}

#[test]
fn empty_input_is_not_a_type() {
    let mut p = Parser::new(Vec::new());
    assert_eq!(ts_type(&mut p), None);
    assert_eq!(p.errors().len(), 1);
    assert_eq!(p.errors()[0].message, "expected a type");
    assert_eq!(p.errors()[0].primary.as_ref().unwrap().range, TextRange { start: 0, end: 0 });
    assert_eq!(p.events().clone(), vec![Event::Error { index: 0 }]);
}

#[test]
fn nesting_beyond_the_limit_is_reported() {
    let depth = 300;
    let mut tokens = Vec::new();
    for i in 0..depth {
        tokens.push(Token::new(SyntaxKind::L_PAREN, i, i + 1, "(", false));
    }
    tokens.push(Token::new(SyntaxKind::IDENT, depth, depth + 1, "T", false));
    for i in 0..depth {
        tokens.push(Token::new(SyntaxKind::R_PAREN, depth + 1 + i, depth + 2 + i, ")", false));
    }
    let mut p = Parser::new(tokens);
    let node = ts_type(&mut p).unwrap();
    assert_eq!(node.kind, SyntaxKind::TS_PAREN);
    assert_eq!(p.errors()[0].message, "nesting too deep");
    // 256 parentheses were entered; the type inside the last of them was refused.
    assert_eq!(p.errors()[0].primary.as_ref().unwrap().range, TextRange { start: 256, end: 257 });
    assert_eq!(p.errors().len(), 1 + 256);
    assert_eq!(p.errors()[1].message, "expected )");
    assert_eq!(p.position(), 256);

    // At the limit itself nothing is reported.
    let depth = 255;
    let mut tokens = Vec::new();
    for i in 0..depth {
        tokens.push(Token::new(SyntaxKind::L_PAREN, i, i + 1, "(", false));
    }
    tokens.push(Token::new(SyntaxKind::IDENT, depth, depth + 1, "T", false));
    for i in 0..depth {
        tokens.push(Token::new(SyntaxKind::R_PAREN, depth + 1 + i, depth + 2 + i, ")", false));
    }
    let mut q = Parser::new(tokens);
    assert_eq!(ts_type(&mut q).unwrap().kind, SyntaxKind::TS_PAREN);
    assert!(q.errors().is_empty());
    assert!(q.at_end());
}

#[test]
fn recovery_sets_of_the_grammar() {
    let base = base_ts_recovery_set();
    for kind in [
        SyntaxKind::VOID_KW,
        SyntaxKind::IDENT,
        SyntaxKind::AWAIT_KW,
        SyntaxKind::NULL_KW,
        SyntaxKind::BREAK_KW,
        SyntaxKind::L_BRACK,
    ] {
        assert!(base.contains(kind));
    }
    assert!(!base.contains(SyntaxKind::YIELD_KW));
    assert!(!base.contains(SyntaxKind::L_PAREN));
    assert!(!base.contains(SyntaxKind::EOF));
    let types = ts_type_recovery_set();
    for kind in [
        SyntaxKind::VOID_KW,
        SyntaxKind::IDENT,
        SyntaxKind::YIELD_KW,
        SyntaxKind::AWAIT_KW,
        SyntaxKind::NULL_KW,
        SyntaxKind::BREAK_KW,
        SyntaxKind::TYPEOF_KW,
        SyntaxKind::L_CURLY,
        SyntaxKind::L_BRACK,
        SyntaxKind::L_PAREN,
        SyntaxKind::THIS_KW,
        SyntaxKind::IMPORT_KW,
        SyntaxKind::MINUS,
        SyntaxKind::NUMBER,
        SyntaxKind::STRING,
        SyntaxKind::TRUE_KW,
        SyntaxKind::FALSE_KW,
        SyntaxKind::REGEX,
        SyntaxKind::BACKTICK,
    ] {
        assert!(types.contains(kind));
    }
    assert!(!types.contains(SyntaxKind::R_PAREN));
    assert!(!types.contains(SyntaxKind::SEMICOLON));
    assert!(!types.contains(SyntaxKind::R_BRACK));
    assert!(!types.contains(SyntaxKind::EOF));
    assert!(!types.contains(SyntaxKind::DOT));
}

#[test]
fn long_lists_and_paths_need_no_deep_stack() {
    let n = 50_000;
    let mut tokens = vec![Token::new(SyntaxKind::L_BRACK, 0, 1, "[", false)];
    for i in 0..n {
        if i > 0 {
            tokens.push(Token::new(SyntaxKind::COMMA, 0, 1, ",", false));
        }
        tokens.push(Token::new(SyntaxKind::IDENT, 0, 6, "string", false));
    }
    tokens.push(Token::new(SyntaxKind::R_BRACK, 0, 1, "]", false));
    let len = tokens.len();
    let mut p = Parser::new(tokens);
    assert_eq!(ts_type(&mut p).unwrap().kind, SyntaxKind::TS_TUPLE);
    assert!(p.errors().is_empty());
    assert_eq!(p.position(), len);
    // A node of three entries for each element, its comma, and the frame of the tuple.
    assert_eq!(p.events().len(), 3 * n + (n - 1) + 4);

    let mut tokens = vec![Token::new(SyntaxKind::IDENT, 0, 1, "a", false)];
    for _ in 0..n {
        tokens.push(Token::new(SyntaxKind::DOT, 0, 1, ".", false));
        tokens.push(Token::new(SyntaxKind::IDENT, 0, 1, "a", false));
    }
    let mut p = Parser::new(tokens);
    assert_eq!(ts_type(&mut p).unwrap().kind, SyntaxKind::TS_TYPE_REF);
    assert!(p.errors().is_empty());
    assert!(p.at_end());

    let mut tokens = Vec::new();
    for _ in 0..n {
        tokens.push(Token::new(SyntaxKind::SEMICOLON, 0, 1, ";", false));
    }
    let mut p = Parser::new(tokens);
    assert_eq!(ts_type(&mut p), None);
    assert_eq!(p.errors().len(), 1);
    assert!(p.at_end());
}
