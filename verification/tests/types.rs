use rslint_parser::event::Event;
use rslint_parser::parser::Parser;
use rslint_parser::syntax::typescript::{ts_non_array_type, ts_this_predicate, ts_type};
use rslint_parser::syntax_kind::SyntaxKind;
use rslint_parser::token::{TextRange, Token};

fn tok(kind: SyntaxKind, start: usize, text: &str) -> Token {
    Token::new(kind, start, start + text.len(), text, false)
}

fn start() -> Event {
    Event::Start { precedes: None }
}

fn start_before(index: usize) -> Event {
    Event::Start { precedes: Some(index) }
}

fn token(kind: SyntaxKind, index: usize) -> Event {
    Event::Token { kind, index }
}

fn finish(kind: SyntaxKind) -> Event {
    Event::Finish { kind }
}

#[test]
fn primitive_string_is_one_leaf() {
    let mut p = Parser::new(vec![tok(SyntaxKind::IDENT, 0, "string")]);
    let node = ts_type(&mut p).unwrap();
    assert_eq!(node.kind, SyntaxKind::TS_STRING);
    assert_eq!(node.range, TextRange { start: 0, end: 6 });
    assert_eq!(
        p.events().clone(),
        vec![start(), token(SyntaxKind::IDENT, 0), finish(SyntaxKind::TS_STRING)]
    );
    assert!(p.errors().is_empty());
    assert!(p.at_end());
    assert_eq!(p.position(), 1);
}

#[test]
fn qualified_path_nests_to_the_left() {
    let mut p = Parser::new(vec![
        tok(SyntaxKind::IDENT, 0, "Foo"),
        tok(SyntaxKind::DOT, 3, "."),
        tok(SyntaxKind::IDENT, 4, "Bar"),
        tok(SyntaxKind::DOT, 7, "."),
        tok(SyntaxKind::IDENT, 8, "Baz"),
    ]);
    let node = ts_type(&mut p).unwrap();
    assert_eq!(node.kind, SyntaxKind::TS_TYPE_REF);
    assert_eq!(node.range, TextRange { start: 0, end: 11 });
    assert_eq!(
        p.events().clone(),
        vec![
            start(),
            // Foo
            start(),
            token(SyntaxKind::IDENT, 0),
            finish(SyntaxKind::TS_TYPE_NAME),
            // (Foo.Bar): begins before the name at 1
            start_before(1),
            token(SyntaxKind::DOT, 1),
            start(),
            token(SyntaxKind::IDENT, 2),
            finish(SyntaxKind::TS_TYPE_NAME),
            finish(SyntaxKind::TS_QUALIFIED_PATH),
            // ((Foo.Bar).Baz): begins before the path at 4
            start_before(4),
            token(SyntaxKind::DOT, 3),
            start(),
            token(SyntaxKind::IDENT, 4),
            finish(SyntaxKind::TS_TYPE_NAME),
            finish(SyntaxKind::TS_QUALIFIED_PATH),
            finish(SyntaxKind::TS_TYPE_REF),
        ]
    );
    assert!(p.errors().is_empty());
    assert!(p.at_end());
}

#[test]
fn asserts_this_is_foo_is_a_predicate() {
    let input = || {
        vec![
            tok(SyntaxKind::IDENT, 0, "asserts"),
            tok(SyntaxKind::THIS_KW, 8, "this"),
            tok(SyntaxKind::IDENT, 13, "is"),
            tok(SyntaxKind::IDENT, 16, "Foo"),
        ]
    };
    let mut p = Parser::new(input());
    let node = ts_non_array_type(&mut p).unwrap();
    assert_eq!(node.kind, SyntaxKind::TS_PREDICATE);
    assert_eq!(node.range, TextRange { start: 0, end: 19 });
    assert_eq!(node.start_pos, 0);
    assert_eq!(
        p.events().clone(),
        vec![
            start(),
            token(SyntaxKind::IDENT, 0),
            token(SyntaxKind::THIS_KW, 1),
            token(SyntaxKind::IDENT, 2),
            start(),
            start(),
            token(SyntaxKind::IDENT, 3),
            finish(SyntaxKind::TS_TYPE_NAME),
            finish(SyntaxKind::TS_TYPE_REF),
            finish(SyntaxKind::TS_PREDICATE),
        ]
    );
    assert!(p.errors().is_empty());
    assert!(p.at_end());

    let mut q = Parser::new(input());
    let direct = ts_this_predicate(&mut q).unwrap();
    assert_eq!(direct, node);
    assert_eq!(q.events(), p.events());
}

#[test]
fn minus_five_is_a_literal_type() {
    let mut p = Parser::new(vec![tok(SyntaxKind::MINUS, 0, "-"), tok(SyntaxKind::NUMBER, 1, "5")]);
    let node = ts_type(&mut p).unwrap();
    assert_eq!(node.kind, SyntaxKind::TS_LITERAL);
    assert_eq!(node.range, TextRange { start: 0, end: 2 });
    assert_eq!(
        p.events().clone(),
        vec![
            start(),
            token(SyntaxKind::MINUS, 0),
            start(),
            token(SyntaxKind::NUMBER, 1),
            finish(SyntaxKind::LITERAL),
            finish(SyntaxKind::TS_LITERAL),
        ]
    );
    assert!(p.errors().is_empty());
    assert!(p.at_end());
}

#[test]
fn garbage_after_a_type_is_skipped_as_an_error_node() {
    // `123abc`, where the lexer could make nothing of `abc`.
    let mut p = Parser::new(vec![
        tok(SyntaxKind::NUMBER, 0, "123"),
        tok(SyntaxKind::ERROR_TOKEN, 3, "abc"),
    ]);
    let first = ts_type(&mut p).unwrap();
    assert_eq!(first.kind, SyntaxKind::TS_LITERAL);
    assert_eq!(first.range, TextRange { start: 0, end: 3 });
    assert!(p.errors().is_empty());
    assert_eq!(p.position(), 1);

    assert_eq!(ts_type(&mut p), None);
    assert_eq!(p.errors().len(), 1);
    assert_eq!(p.errors()[0].message, "expected a type");
    assert_eq!(p.errors()[0].primary.as_ref().unwrap().range, TextRange { start: 3, end: 6 });
    assert_eq!(
        p.events().clone(),
        vec![
            start(),
            token(SyntaxKind::NUMBER, 0),
            finish(SyntaxKind::LITERAL),
            start_before(0),
            finish(SyntaxKind::TS_LITERAL),
            Event::Error { index: 0 },
            start(),
            token(SyntaxKind::ERROR_TOKEN, 1),
            finish(SyntaxKind::ERROR),
        ]
    );
    assert!(p.at_end());
    assert_eq!(p.logged_text(), "123abc");
}

#[test]
fn a_name_after_a_type_begins_the_next_type() {
    // `123abc`, where the lexer read `abc` as a name: names begin a type.
    let mut p = Parser::new(vec![tok(SyntaxKind::NUMBER, 0, "123"), tok(SyntaxKind::IDENT, 3, "abc")]);
    assert_eq!(ts_type(&mut p).unwrap().kind, SyntaxKind::TS_LITERAL);
    assert_eq!(ts_type(&mut p).unwrap().kind, SyntaxKind::TS_TYPE_REF);
    assert!(p.errors().is_empty());
    assert!(p.at_end());
}

#[test]
fn unterminated_parenthesis_is_reported_once() {
    let mut p = Parser::new(vec![tok(SyntaxKind::L_PAREN, 0, "("), tok(SyntaxKind::IDENT, 1, "string")]);
    let node = ts_type(&mut p).unwrap();
    assert_eq!(node.kind, SyntaxKind::TS_PAREN);
    assert_eq!(node.range, TextRange { start: 0, end: 7 });
    assert_eq!(p.errors().len(), 1);
    assert_eq!(p.errors()[0].message, "expected )");
    assert_eq!(p.errors()[0].primary.as_ref().unwrap().range, TextRange { start: 7, end: 7 });
    assert_eq!(
        p.events().clone(),
        vec![
            start(),
            token(SyntaxKind::L_PAREN, 0),
            start(),
            token(SyntaxKind::IDENT, 1),
            finish(SyntaxKind::TS_STRING),
            Event::Error { index: 0 },
            finish(SyntaxKind::TS_PAREN),
        ]
    );
    assert!(p.at_end());
}
