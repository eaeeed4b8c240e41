use modu::ast::Span;
use modu::lexer::{tokenize, LexingError, Token};

fn kinds(source: &str) -> Vec<Token> {
    tokenize(source).unwrap().into_iter().map(|(t, _)| t).collect()
}

#[test]
fn string_1() {
    let tokens = kinds("\"Hello, world!\"");
    assert!(matches!(&tokens[0], Token::String(s) if s == "Hello, world!"));
}

#[test]
fn string_2() {
    let tokens = kinds("'Hello, world!'");
    assert!(matches!(&tokens[0], Token::String(s) if s == "Hello, world!"));
}

#[test]
fn string_error() {
    let r = tokenize("\"Hello, world!'");
    assert!(matches!(r, Err((LexingError::UnexpectedToken, Span { start: 0, end: 15 }))));
}

#[test]
fn assign_str() {
    let tokens = kinds("let x = \"test\"");
    assert!(matches!(tokens[0], Token::Let));
    assert!(matches!(&tokens[1], Token::Identifer(s) if s == "x"));
    assert!(matches!(tokens[2], Token::Assign));
    assert!(matches!(&tokens[3], Token::String(s) if s == "test"));
}

#[test]
fn assign_number() {
    let tokens = kinds("let x = 10");
    assert!(matches!(tokens[0], Token::Let));
    assert!(matches!(&tokens[1], Token::Identifer(s) if s == "x"));
    assert!(matches!(tokens[2], Token::Assign));
    assert!(matches!(tokens[3], Token::Integer(10)));
}

#[test]
fn assign_boolean() {
    let tokens = kinds("let x = true");
    assert!(matches!(tokens[0], Token::Let));
    assert!(matches!(&tokens[1], Token::Identifer(s) if s == "x"));
    assert!(matches!(tokens[2], Token::Assign));
    assert!(matches!(tokens[3], Token::Boolean(true)));
}

#[test]
fn expr() {
    let tokens = kinds("print(\"Hello, world!\")");
    assert!(matches!(&tokens[0], Token::Identifer(s) if s == "print"));
    assert!(matches!(tokens[1], Token::LParen));
    assert!(matches!(&tokens[2], Token::String(s) if s == "Hello, world!"));
    assert!(matches!(tokens[3], Token::RParen));
}

#[test]
fn comments() {
    let tokens = kinds("// This is a comment\n/* This is a \n multi-line comment */");
    assert_eq!(tokens.len(), 0);
}

#[test]
fn int_overflow() {
    let r = tokenize("let x = 9223372036854775808");
    match r {
        Err((LexingError::InvalidInteger(text), span)) => {
            assert_eq!(text, "Integer overflow");
            assert_eq!(span, Span { start: 8, end: 27 });
        }
        other => panic!("{:?}", other),
    }
}

#[test]
fn largest_integer() {
    let tokens = kinds("9223372036854775807 1_000_000 0");
    assert!(matches!(tokens[0], Token::Integer(i64::MAX)));
    assert!(matches!(tokens[1], Token::Integer(1000000)));
    assert!(matches!(tokens[2], Token::Integer(0)));
}

#[test]
fn spans_are_byte_offsets() {
    let tokens = tokenize("let é = \"ü\";").unwrap_err();
    assert!(matches!(tokens, (LexingError::UnexpectedToken, Span { start: 4, end: 6 })));
    let tokens = tokenize("\"ü\" x").unwrap();
    assert_eq!(tokens[0].1, Span { start: 0, end: 4 });
    assert_eq!(tokens[1].1, Span { start: 5, end: 6 });
}

#[test]
fn floats_ranges_and_dots() {
    let tokens = kinds("1.5 1..3 0..=2 a.b 1.x");
    assert!(matches!(&tokens[0], Token::Float(s) if s == "1.5"));
    assert!(matches!(tokens[1], Token::Integer(1)));
    assert!(matches!(tokens[2], Token::Range));
    assert!(matches!(tokens[3], Token::Integer(3)));
    assert!(matches!(tokens[4], Token::Integer(0)));
    assert!(matches!(tokens[5], Token::InclusiveRange));
    assert!(matches!(tokens[6], Token::Integer(2)));
    assert!(matches!(&tokens[7], Token::Identifer(s) if s == "a"));
    assert!(matches!(tokens[8], Token::Dot));
    assert!(matches!(&tokens[9], Token::Identifer(s) if s == "b"));
    assert!(matches!(tokens[10], Token::Integer(1)));
    assert!(matches!(tokens[11], Token::Dot));
    assert!(matches!(&tokens[12], Token::Identifer(s) if s == "x"));
}

#[test]
fn keywords_and_names() {
    let tokens = kinds("let fn if else loop for import as return break continue null true false letter _x1");
    assert!(matches!(tokens[0], Token::Let));
    assert!(matches!(tokens[1], Token::Fn));
    assert!(matches!(tokens[2], Token::If));
    assert!(matches!(tokens[3], Token::Else));
    assert!(matches!(tokens[4], Token::Loop));
    assert!(matches!(tokens[5], Token::For));
    assert!(matches!(tokens[6], Token::Import));
    assert!(matches!(tokens[7], Token::As));
    assert!(matches!(tokens[8], Token::Return));
    assert!(matches!(tokens[9], Token::Break));
    assert!(matches!(tokens[10], Token::Continue));
    assert!(matches!(tokens[11], Token::Null));
    assert!(matches!(tokens[12], Token::Boolean(true)));
    assert!(matches!(tokens[13], Token::Boolean(false)));
    assert!(matches!(&tokens[14], Token::Identifer(s) if s == "letter"));
    assert!(matches!(&tokens[15], Token::Identifer(s) if s == "_x1"));
}

#[test]
fn operators_and_punctuation() {
    let tokens = kinds("( ) { } [ ] , ; + - * = == != < <= > >=");
    assert!(matches!(tokens[0], Token::LParen));
    assert!(matches!(tokens[1], Token::RParen));
    assert!(matches!(tokens[2], Token::LBracket));
    assert!(matches!(tokens[3], Token::RBracket));
    assert!(matches!(tokens[4], Token::LSquareBracket));
    assert!(matches!(tokens[5], Token::RSquareBracket));
    assert!(matches!(tokens[6], Token::Comma));
    assert!(matches!(tokens[7], Token::Semicolon));
    assert!(matches!(tokens[8], Token::Plus));
    assert!(matches!(tokens[9], Token::Minus));
    assert!(matches!(tokens[10], Token::Star));
    assert!(matches!(tokens[11], Token::Assign));
    assert!(matches!(tokens[12], Token::IsEqual));
    assert!(matches!(tokens[13], Token::IsUnequal));
    assert!(matches!(tokens[14], Token::LessThan));
    assert!(matches!(tokens[15], Token::LessThanOrEqual));
    assert!(matches!(tokens[16], Token::GreaterThan));
    assert!(matches!(tokens[17], Token::GreaterThanOrEqual));
}

#[test]
fn escapes_stay_in_the_token() {
    let tokens = kinds("\"a\\\"b\\n\"");
    assert!(matches!(&tokens[0], Token::String(s) if s == "a\\\"b\\n"));
}

#[test]
fn unknown_characters_fail() {
    assert!(matches!(tokenize("a # b"), Err((LexingError::UnexpectedToken, Span { start: 2, end: 3 }))));
    assert!(matches!(tokenize("!"), Err((LexingError::UnexpectedToken, _))));
    assert!(matches!(tokenize("1 / 2"), Err((LexingError::UnexpectedToken, Span { start: 2, end: 3 }))));
}

#[test]
fn unclosed_block_comment_gives_its_opening() {
    let tokens = kinds("/* never closed");
    assert!(matches!(tokens[0], Token::MultiLineCommentStart));
    let tokens = kinds("*/");
    assert!(matches!(tokens[0], Token::MultiLineCommentEnd));
}

#[test]
fn empty_source_has_no_tokens() {
    assert_eq!(tokenize("").unwrap().len(), 0);
    assert_eq!(tokenize("  \n\t ").unwrap().len(), 0);
}

#[test]
fn default_error_is_unexpected_token() {
    assert!(matches!(LexingError::default(), LexingError::UnexpectedToken));
}
