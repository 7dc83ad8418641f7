//! The kinds of tokens and of syntax nodes.

use vstd::prelude::*;

verus! {

/// The kind of a token or of a node of the syntax tree.
///
/// Token kinds come first: the end of input, punctuation, the reserved words,
/// then literals and names. Node kinds follow.
#[allow(non_camel_case_types)]
#[derive(Clone, Copy, PartialEq, Eq, Debug, Hash, Structural)]
pub enum SyntaxKind {
    // End of input.
    EOF,
    // Punctuation.
    SEMICOLON,
    COMMA,
    L_PAREN,
    R_PAREN,
    L_CURLY,
    R_CURLY,
    L_BRACK,
    R_BRACK,
    L_ANGLE,
    R_ANGLE,
    TILDE,
    QUESTION,
    AMP,
    PIPE,
    PLUS,
    STAR,
    SLASH,
    CARET,
    PERCENT,
    DOT,
    DOT3,
    COLON,
    EQ,
    BANG,
    MINUS,
    FAT_ARROW,
    BACKTICK,
    DOLLARCURLY,
    // Reserved words.
    AWAIT_KW,
    BREAK_KW,
    CASE_KW,
    CATCH_KW,
    CLASS_KW,
    CONST_KW,
    CONTINUE_KW,
    DEBUGGER_KW,
    DEFAULT_KW,
    DELETE_KW,
    DO_KW,
    ELSE_KW,
    ENUM_KW,
    EXPORT_KW,
    EXTENDS_KW,
    FALSE_KW,
    FINALLY_KW,
    FOR_KW,
    FUNCTION_KW,
    IF_KW,
    IN_KW,
    INSTANCEOF_KW,
    IMPORT_KW,
    NEW_KW,
    NULL_KW,
    RETURN_KW,
    SUPER_KW,
    SWITCH_KW,
    THIS_KW,
    THROW_KW,
    TRY_KW,
    TRUE_KW,
    TYPEOF_KW,
    VAR_KW,
    VOID_KW,
    WHILE_KW,
    WITH_KW,
    YIELD_KW,
    // Literals, names and template text.
    NUMBER,
    STRING,
    REGEX,
    IDENT,
    TEMPLATE_CHUNK,
    ERROR_TOKEN,
    // Nodes.
    ERROR,
    LITERAL,
    TEMPLATE,
    TEMPLATE_ELEMENT,
    TS_ANY,
    TS_UNKNOWN,
    TS_NUMBER,
    TS_OBJECT,
    TS_BOOLEAN,
    TS_BIGINT,
    TS_STRING,
    TS_SYMBOL,
    TS_VOID,
    TS_UNDEFINED,
    TS_NULL,
    TS_NEVER,
    TS_THIS,
    TS_LITERAL,
    TS_TEMPLATE,
    TS_PREDICATE,
    TS_PAREN,
    TS_TYPE_REF,
    TS_QUALIFIED_PATH,
    TS_TYPE_NAME,
    TS_TYPE_ARGS,
    TS_TUPLE,
    TS_TYPE_QUERY,
    TS_IMPORT,
    TS_OBJECT_TYPE,
}

/// The number of kinds; every ordinal is below it.
pub const KIND_COUNT: u8 = 102;

impl SyntaxKind {
    /// The position of the kind in the declaration order.
    pub open spec fn ordinal(self) -> int {
        match self {
            SyntaxKind::EOF => 0,
            SyntaxKind::SEMICOLON => 1,
            SyntaxKind::COMMA => 2,
            SyntaxKind::L_PAREN => 3,
            SyntaxKind::R_PAREN => 4,
            SyntaxKind::L_CURLY => 5,
            SyntaxKind::R_CURLY => 6,
            SyntaxKind::L_BRACK => 7,
            SyntaxKind::R_BRACK => 8,
            SyntaxKind::L_ANGLE => 9,
            SyntaxKind::R_ANGLE => 10,
            SyntaxKind::TILDE => 11,
            SyntaxKind::QUESTION => 12,
            SyntaxKind::AMP => 13,
            SyntaxKind::PIPE => 14,
            SyntaxKind::PLUS => 15,
            SyntaxKind::STAR => 16,
            SyntaxKind::SLASH => 17,
            SyntaxKind::CARET => 18,
            SyntaxKind::PERCENT => 19,
            SyntaxKind::DOT => 20,
            SyntaxKind::DOT3 => 21,
            SyntaxKind::COLON => 22,
            SyntaxKind::EQ => 23,
            SyntaxKind::BANG => 24,
            SyntaxKind::MINUS => 25,
            SyntaxKind::FAT_ARROW => 26,
            SyntaxKind::BACKTICK => 27,
            SyntaxKind::DOLLARCURLY => 28,
            SyntaxKind::AWAIT_KW => 29,
            SyntaxKind::BREAK_KW => 30,
            SyntaxKind::CASE_KW => 31,
            SyntaxKind::CATCH_KW => 32,
            SyntaxKind::CLASS_KW => 33,
            SyntaxKind::CONST_KW => 34,
            SyntaxKind::CONTINUE_KW => 35,
            SyntaxKind::DEBUGGER_KW => 36,
            SyntaxKind::DEFAULT_KW => 37,
            SyntaxKind::DELETE_KW => 38,
            SyntaxKind::DO_KW => 39,
            SyntaxKind::ELSE_KW => 40,
            SyntaxKind::ENUM_KW => 41,
            SyntaxKind::EXPORT_KW => 42,
            SyntaxKind::EXTENDS_KW => 43,
            SyntaxKind::FALSE_KW => 44,
            SyntaxKind::FINALLY_KW => 45,
            SyntaxKind::FOR_KW => 46,
            SyntaxKind::FUNCTION_KW => 47,
            SyntaxKind::IF_KW => 48,
            SyntaxKind::IN_KW => 49,
            SyntaxKind::INSTANCEOF_KW => 50,
            SyntaxKind::IMPORT_KW => 51,
            SyntaxKind::NEW_KW => 52,
            SyntaxKind::NULL_KW => 53,
            SyntaxKind::RETURN_KW => 54,
            SyntaxKind::SUPER_KW => 55,
            SyntaxKind::SWITCH_KW => 56,
            SyntaxKind::THIS_KW => 57,
            SyntaxKind::THROW_KW => 58,
            SyntaxKind::TRY_KW => 59,
            SyntaxKind::TRUE_KW => 60,
            SyntaxKind::TYPEOF_KW => 61,
            SyntaxKind::VAR_KW => 62,
            SyntaxKind::VOID_KW => 63,
            SyntaxKind::WHILE_KW => 64,
            SyntaxKind::WITH_KW => 65,
            SyntaxKind::YIELD_KW => 66,
            SyntaxKind::NUMBER => 67,
            SyntaxKind::STRING => 68,
            SyntaxKind::REGEX => 69,
            SyntaxKind::IDENT => 70,
            SyntaxKind::TEMPLATE_CHUNK => 71,
            SyntaxKind::ERROR_TOKEN => 72,
            SyntaxKind::ERROR => 73,
            SyntaxKind::LITERAL => 74,
            SyntaxKind::TEMPLATE => 75,
            SyntaxKind::TEMPLATE_ELEMENT => 76,
            SyntaxKind::TS_ANY => 77,
            SyntaxKind::TS_UNKNOWN => 78,
            SyntaxKind::TS_NUMBER => 79,
            SyntaxKind::TS_OBJECT => 80,
            SyntaxKind::TS_BOOLEAN => 81,
            SyntaxKind::TS_BIGINT => 82,
            SyntaxKind::TS_STRING => 83,
            SyntaxKind::TS_SYMBOL => 84,
            SyntaxKind::TS_VOID => 85,
            SyntaxKind::TS_UNDEFINED => 86,
            SyntaxKind::TS_NULL => 87,
            SyntaxKind::TS_NEVER => 88,
            SyntaxKind::TS_THIS => 89,
            SyntaxKind::TS_LITERAL => 90,
            SyntaxKind::TS_TEMPLATE => 91,
            SyntaxKind::TS_PREDICATE => 92,
            SyntaxKind::TS_PAREN => 93,
            SyntaxKind::TS_TYPE_REF => 94,
            SyntaxKind::TS_QUALIFIED_PATH => 95,
            SyntaxKind::TS_TYPE_NAME => 96,
            SyntaxKind::TS_TYPE_ARGS => 97,
            SyntaxKind::TS_TUPLE => 98,
            SyntaxKind::TS_TYPE_QUERY => 99,
            SyntaxKind::TS_IMPORT => 100,
            SyntaxKind::TS_OBJECT_TYPE => 101,
        }
    }

    /// The ordinal of the kind, as a machine integer.
    pub fn to_index(self) -> (r: u8)
        ensures
            r == self.ordinal(),
            r < KIND_COUNT,
    {
        match self {
            SyntaxKind::EOF => 0,
            SyntaxKind::SEMICOLON => 1,
            SyntaxKind::COMMA => 2,
            SyntaxKind::L_PAREN => 3,
            SyntaxKind::R_PAREN => 4,
            SyntaxKind::L_CURLY => 5,
            SyntaxKind::R_CURLY => 6,
            SyntaxKind::L_BRACK => 7,
            SyntaxKind::R_BRACK => 8,
            SyntaxKind::L_ANGLE => 9,
            SyntaxKind::R_ANGLE => 10,
            SyntaxKind::TILDE => 11,
            SyntaxKind::QUESTION => 12,
            SyntaxKind::AMP => 13,
            SyntaxKind::PIPE => 14,
            SyntaxKind::PLUS => 15,
            SyntaxKind::STAR => 16,
            SyntaxKind::SLASH => 17,
            SyntaxKind::CARET => 18,
            SyntaxKind::PERCENT => 19,
            SyntaxKind::DOT => 20,
            SyntaxKind::DOT3 => 21,
            SyntaxKind::COLON => 22,
            SyntaxKind::EQ => 23,
            SyntaxKind::BANG => 24,
            SyntaxKind::MINUS => 25,
            SyntaxKind::FAT_ARROW => 26,
            SyntaxKind::BACKTICK => 27,
            SyntaxKind::DOLLARCURLY => 28,
            SyntaxKind::AWAIT_KW => 29,
            SyntaxKind::BREAK_KW => 30,
            SyntaxKind::CASE_KW => 31,
            SyntaxKind::CATCH_KW => 32,
            SyntaxKind::CLASS_KW => 33,
            SyntaxKind::CONST_KW => 34,
            SyntaxKind::CONTINUE_KW => 35,
            SyntaxKind::DEBUGGER_KW => 36,
            SyntaxKind::DEFAULT_KW => 37,
            SyntaxKind::DELETE_KW => 38,
            SyntaxKind::DO_KW => 39,
            SyntaxKind::ELSE_KW => 40,
            SyntaxKind::ENUM_KW => 41,
            SyntaxKind::EXPORT_KW => 42,
            SyntaxKind::EXTENDS_KW => 43,
            SyntaxKind::FALSE_KW => 44,
            SyntaxKind::FINALLY_KW => 45,
            SyntaxKind::FOR_KW => 46,
            SyntaxKind::FUNCTION_KW => 47,
            SyntaxKind::IF_KW => 48,
            SyntaxKind::IN_KW => 49,
            SyntaxKind::INSTANCEOF_KW => 50,
            SyntaxKind::IMPORT_KW => 51,
            SyntaxKind::NEW_KW => 52,
            SyntaxKind::NULL_KW => 53,
            SyntaxKind::RETURN_KW => 54,
            SyntaxKind::SUPER_KW => 55,
            SyntaxKind::SWITCH_KW => 56,
            SyntaxKind::THIS_KW => 57,
            SyntaxKind::THROW_KW => 58,
            SyntaxKind::TRY_KW => 59,
            SyntaxKind::TRUE_KW => 60,
            SyntaxKind::TYPEOF_KW => 61,
            SyntaxKind::VAR_KW => 62,
            SyntaxKind::VOID_KW => 63,
            SyntaxKind::WHILE_KW => 64,
            SyntaxKind::WITH_KW => 65,
            SyntaxKind::YIELD_KW => 66,
            SyntaxKind::NUMBER => 67,
            SyntaxKind::STRING => 68,
            SyntaxKind::REGEX => 69,
            SyntaxKind::IDENT => 70,
            SyntaxKind::TEMPLATE_CHUNK => 71,
            SyntaxKind::ERROR_TOKEN => 72,
            SyntaxKind::ERROR => 73,
            SyntaxKind::LITERAL => 74,
            SyntaxKind::TEMPLATE => 75,
            SyntaxKind::TEMPLATE_ELEMENT => 76,
            SyntaxKind::TS_ANY => 77,
            SyntaxKind::TS_UNKNOWN => 78,
            SyntaxKind::TS_NUMBER => 79,
            SyntaxKind::TS_OBJECT => 80,
            SyntaxKind::TS_BOOLEAN => 81,
            SyntaxKind::TS_BIGINT => 82,
            SyntaxKind::TS_STRING => 83,
            SyntaxKind::TS_SYMBOL => 84,
            SyntaxKind::TS_VOID => 85,
            SyntaxKind::TS_UNDEFINED => 86,
            SyntaxKind::TS_NULL => 87,
            SyntaxKind::TS_NEVER => 88,
            SyntaxKind::TS_THIS => 89,
            SyntaxKind::TS_LITERAL => 90,
            SyntaxKind::TS_TEMPLATE => 91,
            SyntaxKind::TS_PREDICATE => 92,
            SyntaxKind::TS_PAREN => 93,
            SyntaxKind::TS_TYPE_REF => 94,
            SyntaxKind::TS_QUALIFIED_PATH => 95,
            SyntaxKind::TS_TYPE_NAME => 96,
            SyntaxKind::TS_TYPE_ARGS => 97,
            SyntaxKind::TS_TUPLE => 98,
            SyntaxKind::TS_TYPE_QUERY => 99,
            SyntaxKind::TS_IMPORT => 100,
            SyntaxKind::TS_OBJECT_TYPE => 101,
        }
    }

    /// Whether the kind is a reserved word.
    pub open spec fn keyword(self) -> bool {
        matches!(
            self,
            SyntaxKind::AWAIT_KW | SyntaxKind::BREAK_KW | SyntaxKind::CASE_KW
            | SyntaxKind::CATCH_KW | SyntaxKind::CLASS_KW | SyntaxKind::CONST_KW
            | SyntaxKind::CONTINUE_KW | SyntaxKind::DEBUGGER_KW | SyntaxKind::DEFAULT_KW
            | SyntaxKind::DELETE_KW | SyntaxKind::DO_KW | SyntaxKind::ELSE_KW
            | SyntaxKind::ENUM_KW | SyntaxKind::EXPORT_KW | SyntaxKind::EXTENDS_KW
            | SyntaxKind::FALSE_KW | SyntaxKind::FINALLY_KW | SyntaxKind::FOR_KW
            | SyntaxKind::FUNCTION_KW | SyntaxKind::IF_KW | SyntaxKind::IN_KW
            | SyntaxKind::INSTANCEOF_KW | SyntaxKind::IMPORT_KW | SyntaxKind::NEW_KW
            | SyntaxKind::NULL_KW | SyntaxKind::RETURN_KW | SyntaxKind::SUPER_KW
            | SyntaxKind::SWITCH_KW | SyntaxKind::THIS_KW | SyntaxKind::THROW_KW
            | SyntaxKind::TRY_KW | SyntaxKind::TRUE_KW | SyntaxKind::TYPEOF_KW
            | SyntaxKind::VAR_KW | SyntaxKind::VOID_KW | SyntaxKind::WHILE_KW
            | SyntaxKind::WITH_KW | SyntaxKind::YIELD_KW
        )
    }

    /// Whether the kind is a reserved word.
    #[verifier::when_used_as_spec(keyword)]
    pub fn is_keyword(self) -> (r: bool)
        ensures
            r == self.keyword(),
    {
        matches!(
            self,
            SyntaxKind::AWAIT_KW | SyntaxKind::BREAK_KW | SyntaxKind::CASE_KW
            | SyntaxKind::CATCH_KW | SyntaxKind::CLASS_KW | SyntaxKind::CONST_KW
            | SyntaxKind::CONTINUE_KW | SyntaxKind::DEBUGGER_KW | SyntaxKind::DEFAULT_KW
            | SyntaxKind::DELETE_KW | SyntaxKind::DO_KW | SyntaxKind::ELSE_KW
            | SyntaxKind::ENUM_KW | SyntaxKind::EXPORT_KW | SyntaxKind::EXTENDS_KW
            | SyntaxKind::FALSE_KW | SyntaxKind::FINALLY_KW | SyntaxKind::FOR_KW
            | SyntaxKind::FUNCTION_KW | SyntaxKind::IF_KW | SyntaxKind::IN_KW
            | SyntaxKind::INSTANCEOF_KW | SyntaxKind::IMPORT_KW | SyntaxKind::NEW_KW
            | SyntaxKind::NULL_KW | SyntaxKind::RETURN_KW | SyntaxKind::SUPER_KW
            | SyntaxKind::SWITCH_KW | SyntaxKind::THIS_KW | SyntaxKind::THROW_KW
            | SyntaxKind::TRY_KW | SyntaxKind::TRUE_KW | SyntaxKind::TYPEOF_KW
            | SyntaxKind::VAR_KW | SyntaxKind::VOID_KW | SyntaxKind::WHILE_KW
            | SyntaxKind::WITH_KW | SyntaxKind::YIELD_KW
        )
    }

    /// How the kind is written in a message: punctuation and reserved words by their
    /// source text, every other kind by its name.
    pub open spec fn text(self) -> Seq<char> {
        match self {
            SyntaxKind::EOF => "EOF"@,
            SyntaxKind::SEMICOLON => ";"@,
            SyntaxKind::COMMA => ","@,
            SyntaxKind::L_PAREN => "("@,
            SyntaxKind::R_PAREN => ")"@,
            SyntaxKind::L_CURLY => "{"@,
            SyntaxKind::R_CURLY => "}"@,
            SyntaxKind::L_BRACK => "["@,
            SyntaxKind::R_BRACK => "]"@,
            SyntaxKind::L_ANGLE => "<"@,
            SyntaxKind::R_ANGLE => ">"@,
            SyntaxKind::TILDE => "~"@,
            SyntaxKind::QUESTION => "?"@,
            SyntaxKind::AMP => "&"@,
            SyntaxKind::PIPE => "|"@,
            SyntaxKind::PLUS => "+"@,
            SyntaxKind::STAR => "*"@,
            SyntaxKind::SLASH => "/"@,
            SyntaxKind::CARET => "^"@,
            SyntaxKind::PERCENT => "%"@,
            SyntaxKind::DOT => "."@,
            SyntaxKind::DOT3 => "..."@,
            SyntaxKind::COLON => ":"@,
            SyntaxKind::EQ => "="@,
            SyntaxKind::BANG => "!"@,
            SyntaxKind::MINUS => "-"@,
            SyntaxKind::FAT_ARROW => "=>"@,
            SyntaxKind::BACKTICK => "`"@,
            SyntaxKind::DOLLARCURLY => "${"@,
            SyntaxKind::AWAIT_KW => "await"@,
            SyntaxKind::BREAK_KW => "break"@,
            SyntaxKind::CASE_KW => "case"@,
            SyntaxKind::CATCH_KW => "catch"@,
            SyntaxKind::CLASS_KW => "class"@,
            SyntaxKind::CONST_KW => "const"@,
            SyntaxKind::CONTINUE_KW => "continue"@,
            SyntaxKind::DEBUGGER_KW => "debugger"@,
            SyntaxKind::DEFAULT_KW => "default"@,
            SyntaxKind::DELETE_KW => "delete"@,
            SyntaxKind::DO_KW => "do"@,
            SyntaxKind::ELSE_KW => "else"@,
            SyntaxKind::ENUM_KW => "enum"@,
            SyntaxKind::EXPORT_KW => "export"@,
            SyntaxKind::EXTENDS_KW => "extends"@,
            SyntaxKind::FALSE_KW => "false"@,
            SyntaxKind::FINALLY_KW => "finally"@,
            SyntaxKind::FOR_KW => "for"@,
            SyntaxKind::FUNCTION_KW => "function"@,
            SyntaxKind::IF_KW => "if"@,
            SyntaxKind::IN_KW => "in"@,
            SyntaxKind::INSTANCEOF_KW => "instanceof"@,
            SyntaxKind::IMPORT_KW => "import"@,
            SyntaxKind::NEW_KW => "new"@,
            SyntaxKind::NULL_KW => "null"@,
            SyntaxKind::RETURN_KW => "return"@,
            SyntaxKind::SUPER_KW => "super"@,
            SyntaxKind::SWITCH_KW => "switch"@,
            SyntaxKind::THIS_KW => "this"@,
            SyntaxKind::THROW_KW => "throw"@,
            SyntaxKind::TRY_KW => "try"@,
            SyntaxKind::TRUE_KW => "true"@,
            SyntaxKind::TYPEOF_KW => "typeof"@,
            SyntaxKind::VAR_KW => "var"@,
            SyntaxKind::VOID_KW => "void"@,
            SyntaxKind::WHILE_KW => "while"@,
            SyntaxKind::WITH_KW => "with"@,
            SyntaxKind::YIELD_KW => "yield"@,
            SyntaxKind::NUMBER => "NUMBER"@,
            SyntaxKind::STRING => "STRING"@,
            SyntaxKind::REGEX => "REGEX"@,
            SyntaxKind::IDENT => "IDENT"@,
            SyntaxKind::TEMPLATE_CHUNK => "TEMPLATE_CHUNK"@,
            SyntaxKind::ERROR_TOKEN => "ERROR_TOKEN"@,
            SyntaxKind::ERROR => "ERROR"@,
            SyntaxKind::LITERAL => "LITERAL"@,
            SyntaxKind::TEMPLATE => "TEMPLATE"@,
            SyntaxKind::TEMPLATE_ELEMENT => "TEMPLATE_ELEMENT"@,
            SyntaxKind::TS_ANY => "TS_ANY"@,
            SyntaxKind::TS_UNKNOWN => "TS_UNKNOWN"@,
            SyntaxKind::TS_NUMBER => "TS_NUMBER"@,
            SyntaxKind::TS_OBJECT => "TS_OBJECT"@,
            SyntaxKind::TS_BOOLEAN => "TS_BOOLEAN"@,
            SyntaxKind::TS_BIGINT => "TS_BIGINT"@,
            SyntaxKind::TS_STRING => "TS_STRING"@,
            SyntaxKind::TS_SYMBOL => "TS_SYMBOL"@,
            SyntaxKind::TS_VOID => "TS_VOID"@,
            SyntaxKind::TS_UNDEFINED => "TS_UNDEFINED"@,
            SyntaxKind::TS_NULL => "TS_NULL"@,
            SyntaxKind::TS_NEVER => "TS_NEVER"@,
            SyntaxKind::TS_THIS => "TS_THIS"@,
            SyntaxKind::TS_LITERAL => "TS_LITERAL"@,
            SyntaxKind::TS_TEMPLATE => "TS_TEMPLATE"@,
            SyntaxKind::TS_PREDICATE => "TS_PREDICATE"@,
            SyntaxKind::TS_PAREN => "TS_PAREN"@,
            SyntaxKind::TS_TYPE_REF => "TS_TYPE_REF"@,
            SyntaxKind::TS_QUALIFIED_PATH => "TS_QUALIFIED_PATH"@,
            SyntaxKind::TS_TYPE_NAME => "TS_TYPE_NAME"@,
            SyntaxKind::TS_TYPE_ARGS => "TS_TYPE_ARGS"@,
            SyntaxKind::TS_TUPLE => "TS_TUPLE"@,
            SyntaxKind::TS_TYPE_QUERY => "TS_TYPE_QUERY"@,
            SyntaxKind::TS_IMPORT => "TS_IMPORT"@,
            SyntaxKind::TS_OBJECT_TYPE => "TS_OBJECT_TYPE"@,
        }
    }

    /// The text of the kind for use in a message.
    pub fn describe(self) -> (r: &'static str)
        ensures
            r@ == self.text(),
    {
        match self {
            SyntaxKind::EOF => "EOF",
            SyntaxKind::SEMICOLON => ";",
            SyntaxKind::COMMA => ",",
            SyntaxKind::L_PAREN => "(",
            SyntaxKind::R_PAREN => ")",
            SyntaxKind::L_CURLY => "{",
            SyntaxKind::R_CURLY => "}",
            SyntaxKind::L_BRACK => "[",
            SyntaxKind::R_BRACK => "]",
            SyntaxKind::L_ANGLE => "<",
            SyntaxKind::R_ANGLE => ">",
            SyntaxKind::TILDE => "~",
            SyntaxKind::QUESTION => "?",
            SyntaxKind::AMP => "&",
            SyntaxKind::PIPE => "|",
            SyntaxKind::PLUS => "+",
            SyntaxKind::STAR => "*",
            SyntaxKind::SLASH => "/",
            SyntaxKind::CARET => "^",
            SyntaxKind::PERCENT => "%",
            SyntaxKind::DOT => ".",
            SyntaxKind::DOT3 => "...",
            SyntaxKind::COLON => ":",
            SyntaxKind::EQ => "=",
            SyntaxKind::BANG => "!",
            SyntaxKind::MINUS => "-",
            SyntaxKind::FAT_ARROW => "=>",
            SyntaxKind::BACKTICK => "`",
            SyntaxKind::DOLLARCURLY => "${",
            SyntaxKind::AWAIT_KW => "await",
            SyntaxKind::BREAK_KW => "break",
            SyntaxKind::CASE_KW => "case",
            SyntaxKind::CATCH_KW => "catch",
            SyntaxKind::CLASS_KW => "class",
            SyntaxKind::CONST_KW => "const",
            SyntaxKind::CONTINUE_KW => "continue",
            SyntaxKind::DEBUGGER_KW => "debugger",
            SyntaxKind::DEFAULT_KW => "default",
            SyntaxKind::DELETE_KW => "delete",
            SyntaxKind::DO_KW => "do",
            SyntaxKind::ELSE_KW => "else",
            SyntaxKind::ENUM_KW => "enum",
            SyntaxKind::EXPORT_KW => "export",
            SyntaxKind::EXTENDS_KW => "extends",
            SyntaxKind::FALSE_KW => "false",
            SyntaxKind::FINALLY_KW => "finally",
            SyntaxKind::FOR_KW => "for",
            SyntaxKind::FUNCTION_KW => "function",
            SyntaxKind::IF_KW => "if",
            SyntaxKind::IN_KW => "in",
            SyntaxKind::INSTANCEOF_KW => "instanceof",
            SyntaxKind::IMPORT_KW => "import",
            SyntaxKind::NEW_KW => "new",
            SyntaxKind::NULL_KW => "null",
            SyntaxKind::RETURN_KW => "return",
            SyntaxKind::SUPER_KW => "super",
            SyntaxKind::SWITCH_KW => "switch",
            SyntaxKind::THIS_KW => "this",
            SyntaxKind::THROW_KW => "throw",
            SyntaxKind::TRY_KW => "try",
            SyntaxKind::TRUE_KW => "true",
            SyntaxKind::TYPEOF_KW => "typeof",
            SyntaxKind::VAR_KW => "var",
            SyntaxKind::VOID_KW => "void",
            SyntaxKind::WHILE_KW => "while",
            SyntaxKind::WITH_KW => "with",
            SyntaxKind::YIELD_KW => "yield",
            SyntaxKind::NUMBER => "NUMBER",
            SyntaxKind::STRING => "STRING",
            SyntaxKind::REGEX => "REGEX",
            SyntaxKind::IDENT => "IDENT",
            SyntaxKind::TEMPLATE_CHUNK => "TEMPLATE_CHUNK",
            SyntaxKind::ERROR_TOKEN => "ERROR_TOKEN",
            SyntaxKind::ERROR => "ERROR",
            SyntaxKind::LITERAL => "LITERAL",
            SyntaxKind::TEMPLATE => "TEMPLATE",
            SyntaxKind::TEMPLATE_ELEMENT => "TEMPLATE_ELEMENT",
            SyntaxKind::TS_ANY => "TS_ANY",
            SyntaxKind::TS_UNKNOWN => "TS_UNKNOWN",
            SyntaxKind::TS_NUMBER => "TS_NUMBER",
            SyntaxKind::TS_OBJECT => "TS_OBJECT",
            SyntaxKind::TS_BOOLEAN => "TS_BOOLEAN",
            SyntaxKind::TS_BIGINT => "TS_BIGINT",
            SyntaxKind::TS_STRING => "TS_STRING",
            SyntaxKind::TS_SYMBOL => "TS_SYMBOL",
            SyntaxKind::TS_VOID => "TS_VOID",
            SyntaxKind::TS_UNDEFINED => "TS_UNDEFINED",
            SyntaxKind::TS_NULL => "TS_NULL",
            SyntaxKind::TS_NEVER => "TS_NEVER",
            SyntaxKind::TS_THIS => "TS_THIS",
            SyntaxKind::TS_LITERAL => "TS_LITERAL",
            SyntaxKind::TS_TEMPLATE => "TS_TEMPLATE",
            SyntaxKind::TS_PREDICATE => "TS_PREDICATE",
            SyntaxKind::TS_PAREN => "TS_PAREN",
            SyntaxKind::TS_TYPE_REF => "TS_TYPE_REF",
            SyntaxKind::TS_QUALIFIED_PATH => "TS_QUALIFIED_PATH",
            SyntaxKind::TS_TYPE_NAME => "TS_TYPE_NAME",
            SyntaxKind::TS_TYPE_ARGS => "TS_TYPE_ARGS",
            SyntaxKind::TS_TUPLE => "TS_TUPLE",
            SyntaxKind::TS_TYPE_QUERY => "TS_TYPE_QUERY",
            SyntaxKind::TS_IMPORT => "TS_IMPORT",
            SyntaxKind::TS_OBJECT_TYPE => "TS_OBJECT_TYPE",
        }
    }
}

/// Distinct kinds have distinct ordinals.
pub proof fn lemma_ordinal_injective(a: SyntaxKind, b: SyntaxKind)
    ensures
        a.ordinal() == b.ordinal() <==> a == b,
        0 <= a.ordinal() < KIND_COUNT,
{
}

} // verus!
