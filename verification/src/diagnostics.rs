//! How the failures of a program are put into words.

use crate::ast::Span;
use crate::evaluator::Diagnostic;
use crate::grammar::{Expected, ParseError, ParseErrorView};
use crate::lexer::{LexingError, LexingErrorView, Token, TokenView};
use crate::semantics::{DiagnosticView, TopLevel};
use crate::text::{int_text, int_to_text, joined, push_text};
use vstd::prelude::*;

verus! {

/// A token as it is written in a source text.
pub open spec fn token_text(t: TokenView) -> Seq<char> {
    match t {
        TokenView::MultiLineCommentStart => "/*"@,
        TokenView::MultiLineCommentEnd => "*/"@,
        TokenView::Let => "let"@,
        TokenView::Fn => "fn"@,
        TokenView::Import => "import"@,
        TokenView::Return => "return"@,
        TokenView::As => "as"@,
        TokenView::Comma => ","@,
        TokenView::Semicolon => ";"@,
        TokenView::If => "if"@,
        TokenView::Else => "else"@,
        TokenView::Loop => "loop"@,
        TokenView::For => "for"@,
        TokenView::Break => "break"@,
        TokenView::Continue => "continue"@,
        TokenView::Null => "null"@,
        TokenView::Identifer(s) => s,
        TokenView::Integer(n) => int_text(n as int),
        TokenView::Float(s) => s,
        TokenView::String(s) => "\""@ + s + "\""@,
        TokenView::Boolean(b) => if b {
            "true"@
        } else {
            "false"@
        },
        TokenView::LParen => "("@,
        TokenView::RParen => ")"@,
        TokenView::LBracket => "{"@,
        TokenView::RBracket => "}"@,
        TokenView::LSquareBracket => "["@,
        TokenView::RSquareBracket => "]"@,
        TokenView::Dot => "."@,
        TokenView::Range => ".."@,
        TokenView::InclusiveRange => "..="@,
        TokenView::Plus => "+"@,
        TokenView::Minus => "-"@,
        TokenView::Assign => "="@,
        TokenView::IsEqual => "=="@,
        TokenView::IsUnequal => "!="@,
        TokenView::LessThan => "<"@,
        TokenView::GreaterThan => ">"@,
        TokenView::LessThanOrEqual => "<="@,
        TokenView::GreaterThanOrEqual => ">="@,
        TokenView::Star => "*"@,
    }
}

/// What the parser was looking for, in words.
pub open spec fn expected_text(what: Expected) -> Seq<char> {
    match what {
        Expected::Expression => "an expression"@,
        Expected::Identifier => "a name"@,
        Expected::Assign => "'='"@,
        Expected::Semicolon => "';'"@,
        Expected::LParen => "'('"@,
        Expected::RParen => "')'"@,
        Expected::LBracket => "'{'"@,
        Expected::RSquareBracket => "']'"@,
        Expected::CommaOrRParen => "',' or ')'"@,
        Expected::CommaOrRSquareBracket => "',' or ']'"@,
        Expected::StatementOrRBracket => "a statement or '}'"@,
        Expected::ModuleName => "the name of a module"@,
        Expected::Alias => "a name or '*'"@,
    }
}

/// The message of a syntax error: what was expected and what was found.
pub open spec fn syntax_text(e: ParseErrorView) -> Seq<char> {
    "expected "@ + expected_text(e.expected) + ", found "@ + (match e.found {
        Some(t) => "'"@ + token_text(t) + "'"@,
        None => "end of input"@,
    })
}

/// The message of a lexical error.
pub open spec fn lexical_text(e: LexingErrorView) -> Seq<char> {
    match e {
        LexingErrorView::UnexpectedToken => "unexpected token"@,
        LexingErrorView::InvalidInteger(why) => "invalid integer: "@ + why,
    }
}

/// The message of a statement that may not stand at the top level.
pub open spec fn top_level_text(what: TopLevel) -> Seq<char> {
    match what {
        TopLevel::Return => "'return' cannot stand at the top level"@,
        TopLevel::Break => "'break' cannot stand at the top level"@,
        TopLevel::Continue => "'continue' cannot stand at the top level"@,
    }
}

/// The message of a failure and the span it is about.
pub open spec fn reported(d: DiagnosticView) -> (Seq<char>, Span) {
    match d {
        DiagnosticView::Lex(e, span) => (lexical_text(e), span),
        DiagnosticView::Syntax(e) => (syntax_text(e), e.span),
        DiagnosticView::TopLevel(what, span) => (top_level_text(what), span),
        DiagnosticView::Eval(e) => (e.message, e.span),
    }
}

/// A token as it is written in a source text.
pub fn token_to_text(t: &Token) -> (r: String)
    ensures
        r@ == token_text(t@),
{
    match t {
        Token::MultiLineCommentStart => String::from_str("/*"),
        Token::MultiLineCommentEnd => String::from_str("*/"),
        Token::Let => String::from_str("let"),
        Token::Fn => String::from_str("fn"),
        Token::Import => String::from_str("import"),
        Token::Return => String::from_str("return"),
        Token::As => String::from_str("as"),
        Token::Comma => String::from_str(","),
        Token::Semicolon => String::from_str(";"),
        Token::If => String::from_str("if"),
        Token::Else => String::from_str("else"),
        Token::Loop => String::from_str("loop"),
        Token::For => String::from_str("for"),
        Token::Break => String::from_str("break"),
        Token::Continue => String::from_str("continue"),
        Token::Null => String::from_str("null"),
        Token::Identifer(s) => s.clone(),
        Token::Integer(n) => int_to_text(*n),
        Token::Float(s) => s.clone(),
        Token::String(s) => {
            let mut out = String::from_str("\"");
            push_text(&mut out, s.as_str());
            push_text(&mut out, "\"");
            out
        },
        Token::Boolean(b) => if *b {
            String::from_str("true")
        } else {
            String::from_str("false")
        },
        Token::LParen => String::from_str("("),
        Token::RParen => String::from_str(")"),
        Token::LBracket => String::from_str("{"),
        Token::RBracket => String::from_str("}"),
        Token::LSquareBracket => String::from_str("["),
        Token::RSquareBracket => String::from_str("]"),
        Token::Dot => String::from_str("."),
        Token::Range => String::from_str(".."),
        Token::InclusiveRange => String::from_str("..="),
        Token::Plus => String::from_str("+"),
        Token::Minus => String::from_str("-"),
        Token::Assign => String::from_str("="),
        Token::IsEqual => String::from_str("=="),
        Token::IsUnequal => String::from_str("!="),
        Token::LessThan => String::from_str("<"),
        Token::GreaterThan => String::from_str(">"),
        Token::LessThanOrEqual => String::from_str("<="),
        Token::GreaterThanOrEqual => String::from_str(">="),
        Token::Star => String::from_str("*"),
    }
}

/// What the parser was looking for, in words.
pub fn expected_to_text(what: Expected) -> (r: &'static str)
    ensures
        r@ == expected_text(what),
{
    match what {
        Expected::Expression => "an expression",
        Expected::Identifier => "a name",
        Expected::Assign => "'='",
        Expected::Semicolon => "';'",
        Expected::LParen => "'('",
        Expected::RParen => "')'",
        Expected::LBracket => "'{'",
        Expected::RSquareBracket => "']'",
        Expected::CommaOrRParen => "',' or ')'",
        Expected::CommaOrRSquareBracket => "',' or ']'",
        Expected::StatementOrRBracket => "a statement or '}'",
        Expected::ModuleName => "the name of a module",
        Expected::Alias => "a name or '*'",
    }
}

impl ParseError {
    /// The message of the error: what was expected and what was found.
    pub fn to_text(&self) -> (r: String)
        ensures
            r@ == syntax_text(self@),
    {
        let mut out = String::from_str("expected ");
        push_text(&mut out, expected_to_text(self.expected));
        push_text(&mut out, ", found ");
        match &self.found {
            Some(t) => {
                push_text(&mut out, "'");
                push_text(&mut out, token_to_text(t).as_str());
                push_text(&mut out, "'");
                assert(out@ =~= syntax_text(self@));
            },
            None => {
                push_text(&mut out, "end of input");
            },
        }
        out
    }
}

impl LexingError {
    /// The message of the error.
    pub fn to_text(&self) -> (r: String)
        ensures
            r@ == lexical_text(self@),
    {
        match self {
            LexingError::UnexpectedToken => String::from_str("unexpected token"),
            LexingError::InvalidInteger(why) => joined("invalid integer: ", why.as_str()),
        }
    }
}

impl Diagnostic {
    /// The message of the failure and the span it is about.
    pub fn report(&self) -> (r: (String, Span))
        ensures
            (r.0@, r.1) == reported(self@),
    {
        match self {
            Diagnostic::Lex(e, span) => (e.to_text(), *span),
            Diagnostic::Syntax(e) => (e.to_text(), e.span),
            Diagnostic::TopLevel(what, span) => {
                let text = match what {
                    TopLevel::Return => "'return' cannot stand at the top level",
                    TopLevel::Break => "'break' cannot stand at the top level",
                    TopLevel::Continue => "'continue' cannot stand at the top level",
                };
                (String::from_str(text), *span)
            },
            Diagnostic::Eval(e) => (e.to_text(), e.span),
        }
    }
}

/// The number of line feeds among the first `n` bytes.
pub open spec fn line_feeds(bytes: Seq<u8>, n: int) -> int
    decreases n,
{
    if n <= 0 || n > bytes.len() {
        0
    } else if bytes[n - 1] == 10u8 {
        line_feeds(bytes, n - 1) + 1
    } else {
        line_feeds(bytes, n - 1)
    }
}

/// The offset at which the line of the byte at `n` starts: just after the
/// last line feed before `n`, or zero.
pub open spec fn line_start(bytes: Seq<u8>, n: int) -> int
    decreases n,
{
    if n <= 0 || n > bytes.len() {
        0
    } else if bytes[n - 1] == 10u8 {
        n
    } else {
        line_start(bytes, n - 1)
    }
}

/// The line and the column of a byte offset in a source, both counted from
/// zero; the column counts bytes. An offset beyond the end counts as the
/// end.
pub open spec fn position_of(bytes: Seq<u8>, offset: int) -> (int, int) {
    let n = if offset > bytes.len() {
        bytes.len() as int
    } else {
        offset
    };
    (line_feeds(bytes, n), n - line_start(bytes, n))
}

/// The line and the column of a byte offset in a source.
pub fn position(source: &str, offset: usize) -> (r: (usize, usize))
    ensures
        (r.0 as int, r.1 as int) == position_of(vstd::utf8::encode_utf8(source@), offset as int),
{
    let bytes = source.as_bytes();
    let n = if offset > bytes.len() {
        bytes.len()
    } else {
        offset
    };
    let mut lines: usize = 0;
    let mut start: usize = 0;
    let mut i: usize = 0;
    while i < n
        invariant
            i <= n <= bytes.len(),
            lines as int == line_feeds(bytes@, i as int),
            start as int == line_start(bytes@, i as int),
            lines <= i,
            start <= i,
        decreases n - i,
    {
        if bytes[i] == 10u8 {
            lines = lines + 1;
            start = i + 1;
        }
        i += 1;
    }
    (lines, n - start)
}

} // verus!
