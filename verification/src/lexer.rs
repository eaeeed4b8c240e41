//! The tokenizer: source text to a sequence of tokens with their byte spans.
//!
//! Scanning is longest-match. Whitespace and comments produce no token. The
//! first lexical error ends the whole call.

use crate::ast::Span;
use crate::text::{chars_of, digit_check, digit_number, digit_value, is_digit, same_text, text_of};
use vstd::prelude::*;
use vstd::utf8::{encode_scalar, encode_utf8};

verus! {

/// Why a source text could not be tokenized.
#[derive(Debug)]
pub enum LexingError {
    UnexpectedToken,
    InvalidInteger(String),
}

impl Default for LexingError {
    fn default() -> (r: LexingError)
        ensures
            r is UnexpectedToken,
    {
        LexingError::UnexpectedToken
    }
}

/// Mirror of `LexingError`.
pub enum LexingErrorView {
    UnexpectedToken,
    InvalidInteger(Seq<char>),
}

impl View for LexingError {
    type V = LexingErrorView;

    open spec fn view(&self) -> LexingErrorView {
        match self {
            LexingError::UnexpectedToken => LexingErrorView::UnexpectedToken,
            LexingError::InvalidInteger(s) => LexingErrorView::InvalidInteger(s@),
        }
    }
}

/// A token of the language.
#[derive(Debug)]
pub enum Token {
    MultiLineCommentStart,
    MultiLineCommentEnd,
    Let,
    Fn,
    Import,
    Return,
    As,
    Comma,
    Semicolon,
    If,
    Else,
    Loop,
    For,
    Break,
    Continue,
    Null,
    Identifer(String),
    Integer(i64),
    /// A floating-point literal; the payload is the literal as written.
    Float(String),
    /// A quoted string; the payload is the text between the quotes, escape
    /// sequences unresolved.
    String(String),
    Boolean(bool),
    LParen,
    RParen,
    LBracket,
    RBracket,
    LSquareBracket,
    RSquareBracket,
    Dot,
    Range,
    InclusiveRange,
    Plus,
    Minus,
    Assign,
    IsEqual,
    IsUnequal,
    LessThan,
    GreaterThan,
    LessThanOrEqual,
    GreaterThanOrEqual,
    Star,
}

/// Mirror of `Token`.
pub enum TokenView {
    MultiLineCommentStart,
    MultiLineCommentEnd,
    Let,
    Fn,
    Import,
    Return,
    As,
    Comma,
    Semicolon,
    If,
    Else,
    Loop,
    For,
    Break,
    Continue,
    Null,
    Identifer(Seq<char>),
    Integer(i64),
    Float(Seq<char>),
    String(Seq<char>),
    Boolean(bool),
    LParen,
    RParen,
    LBracket,
    RBracket,
    LSquareBracket,
    RSquareBracket,
    Dot,
    Range,
    InclusiveRange,
    Plus,
    Minus,
    Assign,
    IsEqual,
    IsUnequal,
    LessThan,
    GreaterThan,
    LessThanOrEqual,
    GreaterThanOrEqual,
    Star,
}

impl View for Token {
    type V = TokenView;

    open spec fn view(&self) -> TokenView {
        match self {
            Token::MultiLineCommentStart => TokenView::MultiLineCommentStart,
            Token::MultiLineCommentEnd => TokenView::MultiLineCommentEnd,
            Token::Let => TokenView::Let,
            Token::Fn => TokenView::Fn,
            Token::Import => TokenView::Import,
            Token::Return => TokenView::Return,
            Token::As => TokenView::As,
            Token::Comma => TokenView::Comma,
            Token::Semicolon => TokenView::Semicolon,
            Token::If => TokenView::If,
            Token::Else => TokenView::Else,
            Token::Loop => TokenView::Loop,
            Token::For => TokenView::For,
            Token::Break => TokenView::Break,
            Token::Continue => TokenView::Continue,
            Token::Null => TokenView::Null,
            Token::Identifer(s) => TokenView::Identifer(s@),
            Token::Integer(n) => TokenView::Integer(*n),
            Token::Float(s) => TokenView::Float(s@),
            Token::String(s) => TokenView::String(s@),
            Token::Boolean(b) => TokenView::Boolean(*b),
            Token::LParen => TokenView::LParen,
            Token::RParen => TokenView::RParen,
            Token::LBracket => TokenView::LBracket,
            Token::RBracket => TokenView::RBracket,
            Token::LSquareBracket => TokenView::LSquareBracket,
            Token::RSquareBracket => TokenView::RSquareBracket,
            Token::Dot => TokenView::Dot,
            Token::Range => TokenView::Range,
            Token::InclusiveRange => TokenView::InclusiveRange,
            Token::Plus => TokenView::Plus,
            Token::Minus => TokenView::Minus,
            Token::Assign => TokenView::Assign,
            Token::IsEqual => TokenView::IsEqual,
            Token::IsUnequal => TokenView::IsUnequal,
            Token::LessThan => TokenView::LessThan,
            Token::GreaterThan => TokenView::GreaterThan,
            Token::LessThanOrEqual => TokenView::LessThanOrEqual,
            Token::GreaterThanOrEqual => TokenView::GreaterThanOrEqual,
            Token::Star => TokenView::Star,
        }
    }
}

impl Token {
    /// A copy of the token.
    pub fn copy(&self) -> (r: Token)
        ensures
            r@ == self@,
    {
        match self {
            Token::MultiLineCommentStart => Token::MultiLineCommentStart,
            Token::MultiLineCommentEnd => Token::MultiLineCommentEnd,
            Token::Let => Token::Let,
            Token::Fn => Token::Fn,
            Token::Import => Token::Import,
            Token::Return => Token::Return,
            Token::As => Token::As,
            Token::Comma => Token::Comma,
            Token::Semicolon => Token::Semicolon,
            Token::If => Token::If,
            Token::Else => Token::Else,
            Token::Loop => Token::Loop,
            Token::For => Token::For,
            Token::Break => Token::Break,
            Token::Continue => Token::Continue,
            Token::Null => Token::Null,
            Token::Identifer(s) => Token::Identifer(s.clone()),
            Token::Integer(n) => Token::Integer(*n),
            Token::Float(s) => Token::Float(s.clone()),
            Token::String(s) => Token::String(s.clone()),
            Token::Boolean(b) => Token::Boolean(*b),
            Token::LParen => Token::LParen,
            Token::RParen => Token::RParen,
            Token::LBracket => Token::LBracket,
            Token::RBracket => Token::RBracket,
            Token::LSquareBracket => Token::LSquareBracket,
            Token::RSquareBracket => Token::RSquareBracket,
            Token::Dot => Token::Dot,
            Token::Range => Token::Range,
            Token::InclusiveRange => Token::InclusiveRange,
            Token::Plus => Token::Plus,
            Token::Minus => Token::Minus,
            Token::Assign => Token::Assign,
            Token::IsEqual => Token::IsEqual,
            Token::IsUnequal => Token::IsUnequal,
            Token::LessThan => Token::LessThan,
            Token::GreaterThan => Token::GreaterThan,
            Token::LessThanOrEqual => Token::LessThanOrEqual,
            Token::GreaterThanOrEqual => Token::GreaterThanOrEqual,
            Token::Star => Token::Star,
        }
    }
}

impl Clone for Token {
    fn clone(&self) -> (r: Self)
        ensures
            r@ == self@,
    {
        self.copy()
    }
}

/// The mirror of a token sequence.
pub open spec fn tokens_view(v: Seq<(Token, Span)>) -> Seq<(TokenView, Span)> {
    Seq::new(v.len(), |i: int| (v[i].0@, v[i].1))
}

// ---------------------------------------------------------------------------
// Character classes and runs
// ---------------------------------------------------------------------------

/// The classes of characters that are scanned as runs.
#[derive(Clone, Copy, Debug, PartialEq, Eq, Structural)]
pub enum Run {
    /// Blanks: space, tab, line feed, form feed, carriage return.
    Space,
    /// Decimal digits.
    Digits,
    /// Letters, digits and the underscore.
    Word,
    /// Anything but a line feed.
    Line,
}

/// Whether `c` is a blank: space, tab, line feed, form feed or carriage
/// return.
pub open spec fn is_space(c: char) -> bool {
    c == ' ' || c == '\t' || c == '\n' || c == '\x0c' || c == '\r'
}

/// Whether a name can start with `c`: a letter or the underscore.
pub open spec fn is_word_start(c: char) -> bool {
    ('a' <= c <= 'z') || ('A' <= c <= 'Z') || c == '_'
}

/// Whether a name can go on with `c`: a letter, a digit or the underscore.
pub open spec fn is_word_part(c: char) -> bool {
    is_word_start(c) || is_digit(c)
}

/// Whether `c` is of the class `run`.
pub open spec fn in_run(run: Run, c: char) -> bool {
    match run {
        Run::Space => is_space(c),
        Run::Digits => is_digit(c),
        Run::Word => is_word_part(c),
        Run::Line => c != '\n',
    }
}

/// The first position at or after `i` whose character is not of class `run`.
pub open spec fn run_end(cs: Seq<char>, i: int, run: Run) -> int
    decreases cs.len() - i,
{
    if 0 <= i < cs.len() && in_run(run, cs[i]) {
        run_end(cs, i + 1, run)
    } else {
        i
    }
}

proof fn run_end_bounds(cs: Seq<char>, i: int, run: Run)
    requires
        0 <= i <= cs.len(),
    ensures
        i <= run_end(cs, i, run) <= cs.len(),
        i < cs.len() && in_run(run, cs[i]) ==> i < run_end(cs, i, run),
    decreases cs.len() - i,
{
    if i < cs.len() && in_run(run, cs[i]) {
        run_end_bounds(cs, i + 1, run);
    }
}

fn space_check(c: char) -> (r: bool)
    ensures
        r == is_space(c),
{
    c == ' ' || c == '\t' || c == '\n' || c == '\x0c' || c == '\r'
}

fn word_start_check(c: char) -> (r: bool)
    ensures
        r == is_word_start(c),
{
    ('a' <= c && c <= 'z') || ('A' <= c && c <= 'Z') || c == '_'
}

fn run_check(run: Run, c: char) -> (r: bool)
    ensures
        r == in_run(run, c),
{
    match run {
        Run::Space => space_check(c),
        Run::Digits => digit_check(c),
        Run::Word => word_start_check(c) || digit_check(c),
        Run::Line => c != '\n',
    }
}

fn scan_run(cs: &Vec<char>, i: usize, run: Run) -> (r: usize)
    requires
        i <= cs.len(),
    ensures
        r == run_end(cs@, i as int, run),
        i <= r <= cs.len(),
{
    let mut j: usize = i;
    while j < cs.len() && run_check(run, cs[j])
        invariant
            i <= j <= cs.len(),
            run_end(cs@, i as int, run) == run_end(cs@, j as int, run),
        decreases cs.len() - j,
    {
        j += 1;
    }
    j
}

// ---------------------------------------------------------------------------
// Numbers
// ---------------------------------------------------------------------------

/// The end of an integer literal, given a position just after one of its
/// digits: digits go on, and a single underscore may stand between two digits.
pub open spec fn integer_end(cs: Seq<char>, i: int) -> int
    decreases cs.len() - i,
{
    if 0 <= i < cs.len() && is_digit(cs[i]) {
        integer_end(cs, i + 1)
    } else if 0 <= i && i + 1 < cs.len() && cs[i] == '_' && is_digit(cs[i + 1]) {
        integer_end(cs, i + 2)
    } else {
        i
    }
}

/// The number that the digits of `cs[from..to]` write, underscores skipped.
pub open spec fn digits_value(cs: Seq<char>, from: int, to: int) -> int
    decreases to - from,
{
    if to <= from || to > cs.len() || from < 0 {
        0
    } else if is_digit(cs[to - 1]) {
        digits_value(cs, from, to - 1) * 10 + digit_value(cs[to - 1])
    } else {
        digits_value(cs, from, to - 1)
    }
}

proof fn digits_value_grows(cs: Seq<char>, from: int, mid: int, to: int)
    requires
        0 <= from <= mid <= to <= cs.len(),
    ensures
        0 <= digits_value(cs, from, mid) <= digits_value(cs, from, to),
    decreases to - mid,
{
    digits_value_nonnegative(cs, from, mid);
    if mid < to {
        digits_value_grows(cs, from, mid, to - 1);
        assert(digits_value(cs, from, to - 1) >= 0);
        if is_digit(cs[to - 1]) {
            assert(digits_value(cs, from, to) == digits_value(cs, from, to - 1) * 10 + digit_value(
                cs[to - 1],
            ));
        }
    }
}

proof fn digits_value_nonnegative(cs: Seq<char>, from: int, to: int)
    ensures
        0 <= digits_value(cs, from, to),
    decreases to - from,
{
    if to <= from || to > cs.len() || from < 0 {
    } else {
        digits_value_nonnegative(cs, from, to - 1);
    }
}

fn scan_integer_end(cs: &Vec<char>, i: usize) -> (r: usize)
    requires
        i <= cs.len(),
    ensures
        r == integer_end(cs@, i as int),
        i <= r <= cs.len(),
{
    let mut j: usize = i;
    loop
        invariant
            i <= j <= cs.len(),
            integer_end(cs@, i as int) == integer_end(cs@, j as int),
        decreases cs.len() - j,
    {
        if j < cs.len() && digit_check(cs[j]) {
            j += 1;
        } else if j < cs.len() && cs.len() - j > 1 && cs[j] == '_' && digit_check(cs[j + 1]) {
            j += 2;
        } else {
            return j;
        }
    }
}

/// The value of the digits in `cs[from..to]`, or `None` when it does not fit
/// in a signed 64-bit integer.
fn integer_value(cs: &Vec<char>, from: usize, to: usize) -> (r: Option<i64>)
    requires
        from <= to <= cs.len(),
    ensures
        match r {
            Some(n) => n as int == digits_value(cs@, from as int, to as int),
            None => digits_value(cs@, from as int, to as int) > i64::MAX,
        },
{
    let mut acc: i64 = 0;
    let mut k: usize = from;
    while k < to
        invariant
            from <= k <= to <= cs.len(),
            acc as int == digits_value(cs@, from as int, k as int),
            0 <= acc,
        decreases to - k,
    {
        let c = cs[k];
        if digit_check(c) {
            let d: i64 = digit_number(c) as i64;
            assert(digits_value(cs@, from as int, k + 1) == acc * 10 + d);
            if acc > (i64::MAX - d) / 10 {
                proof {
                    digits_value_grows(cs@, from as int, k + 1, to as int);
                }
                return None;
            }
            acc = acc * 10 + d;
        } else {
            assert(digits_value(cs@, from as int, k + 1) == acc);
        }
        k += 1;
    }
    Some(acc)
}

// ---------------------------------------------------------------------------
// Strings and comments
// ---------------------------------------------------------------------------

/// The position just after the closing quote of a string whose body starts
/// at `i`, or `None` when the string is not closed. A backslash takes the
/// next character with it, which may not be a line feed.
pub open spec fn string_end(cs: Seq<char>, i: int, quote: char) -> Option<int>
    decreases cs.len() - i,
{
    if i < 0 || i >= cs.len() {
        None
    } else if cs[i] == quote {
        Some(i + 1)
    } else if cs[i] == '\\' {
        if i + 1 < cs.len() && cs[i + 1] != '\n' {
            string_end(cs, i + 2, quote)
        } else {
            None
        }
    } else {
        string_end(cs, i + 1, quote)
    }
}

/// The position just after the end of a block comment whose body starts at
/// `i`, or `None` when it is not closed. Inside the body a star takes the
/// next character with it unless that character is a slash, which closes.
pub open spec fn block_comment_end(cs: Seq<char>, i: int) -> Option<int>
    decreases cs.len() - i,
{
    if i < 0 || i >= cs.len() {
        None
    } else if cs[i] == '*' {
        if i + 1 >= cs.len() {
            None
        } else if cs[i + 1] == '/' {
            Some(i + 2)
        } else {
            block_comment_end(cs, i + 2)
        }
    } else {
        block_comment_end(cs, i + 1)
    }
}

proof fn string_end_bounds(cs: Seq<char>, i: int, quote: char)
    requires
        0 <= i,
    ensures
        string_end(cs, i, quote) matches Some(e) ==> i < e <= cs.len(),
    decreases cs.len() - i,
{
    if i >= cs.len() {
    } else if cs[i] == quote {
    } else if cs[i] == '\\' {
        if i + 1 < cs.len() && cs[i + 1] != '\n' {
            string_end_bounds(cs, i + 2, quote);
        }
    } else {
        string_end_bounds(cs, i + 1, quote);
    }
}

proof fn block_comment_end_bounds(cs: Seq<char>, i: int)
    requires
        0 <= i,
    ensures
        block_comment_end(cs, i) matches Some(e) ==> i < e <= cs.len(),
    decreases cs.len() - i,
{
    if i >= cs.len() {
    } else if cs[i] == '*' {
        if i + 1 >= cs.len() {
        } else if cs[i + 1] == '/' {
        } else {
            block_comment_end_bounds(cs, i + 2);
        }
    } else {
        block_comment_end_bounds(cs, i + 1);
    }
}

fn scan_string_end(cs: &Vec<char>, i: usize, quote: char) -> (r: Option<usize>)
    requires
        i <= cs.len(),
    ensures
        match r {
            Some(e) => string_end(cs@, i as int, quote) == Some(e as int) && i < e <= cs.len(),
            None => string_end(cs@, i as int, quote) is None,
        },
{
    let mut j: usize = i;
    loop
        invariant
            i <= j <= cs.len(),
            string_end(cs@, i as int, quote) == string_end(cs@, j as int, quote),
        decreases cs.len() - j,
    {
        if j >= cs.len() {
            return None;
        }
        let c = cs[j];
        if c == quote {
            return Some(j + 1);
        } else if c == '\\' {
            if cs.len() - j > 1 && cs[j + 1] != '\n' {
                j += 2;
            } else {
                return None;
            }
        } else {
            j += 1;
        }
    }
}

fn scan_block_comment_end(cs: &Vec<char>, i: usize) -> (r: Option<usize>)
    requires
        i <= cs.len(),
    ensures
        match r {
            Some(e) => block_comment_end(cs@, i as int) == Some(e as int) && i < e <= cs.len(),
            None => block_comment_end(cs@, i as int) is None,
        },
{
    let mut j: usize = i;
    loop
        invariant
            i <= j <= cs.len(),
            block_comment_end(cs@, i as int) == block_comment_end(cs@, j as int),
        decreases cs.len() - j,
    {
        if j >= cs.len() {
            return None;
        }
        if cs[j] == '*' {
            if cs.len() - j <= 1 {
                return None;
            } else if cs[j + 1] == '/' {
                return Some(j + 2);
            } else {
                j += 2;
            }
        } else {
            j += 1;
        }
    }
}

// ---------------------------------------------------------------------------
// One lexeme
// ---------------------------------------------------------------------------

/// What stands at one position of the source.
pub enum Lexeme {
    /// A token.
    Token(TokenView),
    /// Blanks or a comment.
    Skip,
    /// Nothing that the language knows.
    Fail(LexingErrorView),
}

/// A lexeme and the position where it ends.
pub struct Scan {
    pub lexeme: Lexeme,
    pub end: int,
}

/// The token that a word stands for: a keyword, a literal, or a name.
pub open spec fn word_token(word: Seq<char>) -> TokenView {
    if word == "let"@ {
        TokenView::Let
    } else if word == "fn"@ {
        TokenView::Fn
    } else if word == "import"@ {
        TokenView::Import
    } else if word == "return"@ {
        TokenView::Return
    } else if word == "as"@ {
        TokenView::As
    } else if word == "if"@ {
        TokenView::If
    } else if word == "else"@ {
        TokenView::Else
    } else if word == "loop"@ {
        TokenView::Loop
    } else if word == "for"@ {
        TokenView::For
    } else if word == "break"@ {
        TokenView::Break
    } else if word == "continue"@ {
        TokenView::Continue
    } else if word == "null"@ {
        TokenView::Null
    } else if word == "true"@ {
        TokenView::Boolean(true)
    } else if word == "false"@ {
        TokenView::Boolean(false)
    } else {
        TokenView::Identifer(word)
    }
}

/// Whether `cs` holds the character `c` at position `i`.
pub open spec fn at(cs: Seq<char>, i: int, c: char) -> bool {
    0 <= i < cs.len() && cs[i] == c
}

/// The lexeme of a number that starts at `i`.
pub open spec fn scan_number(cs: Seq<char>, i: int) -> Scan {
    let d = run_end(cs, i, Run::Digits);
    if at(cs, d, '.') && d + 1 < cs.len() && is_digit(cs[d + 1]) {
        let e = run_end(cs, d + 1, Run::Digits);
        Scan { lexeme: Lexeme::Token(TokenView::Float(cs.subrange(i, e))), end: e }
    } else {
        let e = integer_end(cs, i + 1);
        let value = digits_value(cs, i, e);
        if value > i64::MAX {
            Scan {
                lexeme: Lexeme::Fail(LexingErrorView::InvalidInteger("Integer overflow"@)),
                end: e,
            }
        } else {
            Scan { lexeme: Lexeme::Token(TokenView::Integer(value as i64)), end: e }
        }
    }
}

/// The lexeme of a punctuation mark or operator that starts at `i`.
pub open spec fn scan_symbol(cs: Seq<char>, i: int) -> Scan {
    let c = cs[i];
    if c == '/' {
        if at(cs, i + 1, '/') {
            Scan { lexeme: Lexeme::Skip, end: run_end(cs, i + 2, Run::Line) }
        } else if at(cs, i + 1, '*') {
            match block_comment_end(cs, i + 2) {
                Some(e) => Scan { lexeme: Lexeme::Skip, end: e },
                None => Scan { lexeme: Lexeme::Token(TokenView::MultiLineCommentStart), end: i + 2 },
            }
        } else {
            Scan { lexeme: Lexeme::Fail(LexingErrorView::UnexpectedToken), end: i + 1 }
        }
    } else if c == '*' {
        if at(cs, i + 1, '/') {
            Scan { lexeme: Lexeme::Token(TokenView::MultiLineCommentEnd), end: i + 2 }
        } else {
            Scan { lexeme: Lexeme::Token(TokenView::Star), end: i + 1 }
        }
    } else if c == '.' {
        if at(cs, i + 1, '.') {
            if at(cs, i + 2, '=') {
                Scan { lexeme: Lexeme::Token(TokenView::InclusiveRange), end: i + 3 }
            } else {
                Scan { lexeme: Lexeme::Token(TokenView::Range), end: i + 2 }
            }
        } else {
            Scan { lexeme: Lexeme::Token(TokenView::Dot), end: i + 1 }
        }
    } else if c == '=' {
        if at(cs, i + 1, '=') {
            Scan { lexeme: Lexeme::Token(TokenView::IsEqual), end: i + 2 }
        } else {
            Scan { lexeme: Lexeme::Token(TokenView::Assign), end: i + 1 }
        }
    } else if c == '!' {
        if at(cs, i + 1, '=') {
            Scan { lexeme: Lexeme::Token(TokenView::IsUnequal), end: i + 2 }
        } else {
            Scan { lexeme: Lexeme::Fail(LexingErrorView::UnexpectedToken), end: i + 1 }
        }
    } else if c == '<' {
        if at(cs, i + 1, '=') {
            Scan { lexeme: Lexeme::Token(TokenView::LessThanOrEqual), end: i + 2 }
        } else {
            Scan { lexeme: Lexeme::Token(TokenView::LessThan), end: i + 1 }
        }
    } else if c == '>' {
        if at(cs, i + 1, '=') {
            Scan { lexeme: Lexeme::Token(TokenView::GreaterThanOrEqual), end: i + 2 }
        } else {
            Scan { lexeme: Lexeme::Token(TokenView::GreaterThan), end: i + 1 }
        }
    } else if c == '+' {
        Scan { lexeme: Lexeme::Token(TokenView::Plus), end: i + 1 }
    } else if c == '-' {
        Scan { lexeme: Lexeme::Token(TokenView::Minus), end: i + 1 }
    } else if c == ',' {
        Scan { lexeme: Lexeme::Token(TokenView::Comma), end: i + 1 }
    } else if c == ';' {
        Scan { lexeme: Lexeme::Token(TokenView::Semicolon), end: i + 1 }
    } else if c == '(' {
        Scan { lexeme: Lexeme::Token(TokenView::LParen), end: i + 1 }
    } else if c == ')' {
        Scan { lexeme: Lexeme::Token(TokenView::RParen), end: i + 1 }
    } else if c == '{' {
        Scan { lexeme: Lexeme::Token(TokenView::LBracket), end: i + 1 }
    } else if c == '}' {
        Scan { lexeme: Lexeme::Token(TokenView::RBracket), end: i + 1 }
    } else if c == '[' {
        Scan { lexeme: Lexeme::Token(TokenView::LSquareBracket), end: i + 1 }
    } else if c == ']' {
        Scan { lexeme: Lexeme::Token(TokenView::RSquareBracket), end: i + 1 }
    } else {
        Scan { lexeme: Lexeme::Fail(LexingErrorView::UnexpectedToken), end: i + 1 }
    }
}

/// The lexeme that starts at position `i` of `cs`, for `0 <= i < cs.len()`.
/// An unclosed string fails with a span that runs to the end of the source.
pub open spec fn scan_at(cs: Seq<char>, i: int) -> Scan {
    let c = cs[i];
    if is_space(c) {
        Scan { lexeme: Lexeme::Skip, end: run_end(cs, i, Run::Space) }
    } else if is_word_start(c) {
        let e = run_end(cs, i, Run::Word);
        Scan { lexeme: Lexeme::Token(word_token(cs.subrange(i, e))), end: e }
    } else if is_digit(c) {
        scan_number(cs, i)
    } else if c == '"' || c == '\'' {
        match string_end(cs, i + 1, c) {
            Some(e) => Scan {
                lexeme: Lexeme::Token(TokenView::String(cs.subrange(i + 1, e - 1))),
                end: e,
            },
            None => Scan {
                lexeme: Lexeme::Fail(LexingErrorView::UnexpectedToken),
                end: cs.len() as int,
            },
        }
    } else {
        scan_symbol(cs, i)
    }
}

// ---------------------------------------------------------------------------
// Byte offsets
// ---------------------------------------------------------------------------

/// The number of bytes that the UTF-8 encoding of `cs[0..i]` takes.
pub open spec fn byte_offset(cs: Seq<char>, i: int) -> int {
    encode_utf8(cs).len() - encode_utf8(cs.skip(i)).len()
}

/// The byte span of the characters `cs[from..to]`.
pub open spec fn span_between(cs: Seq<char>, from: int, to: int) -> Span {
    Span { start: byte_offset(cs, from) as usize, end: byte_offset(cs, to) as usize }
}

/// The number of bytes that the UTF-8 encoding of `c` takes.
fn utf8_width(c: char) -> (w: usize)
    ensures
        w == encode_scalar(c as u32).len(),
        1 <= w <= 4,
{
    let v: u32 = c as u32;
    proof {
        vstd::utf8::char_is_scalar(c);
    }
    if v <= 0x7F {
        1
    } else if v <= 0x7FF {
        2
    } else if v <= 0xFFFF {
        3
    } else {
        4
    }
}

proof fn encoding_unfolds(cs: Seq<char>, i: int)
    requires
        0 <= i < cs.len(),
    ensures
        encode_utf8(cs.skip(i)).len() == encode_scalar(cs[i] as u32).len() + encode_utf8(
            cs.skip(i + 1),
        ).len(),
{
    assert(cs.skip(i).drop_first() =~= cs.skip(i + 1));
    assert(cs.skip(i)[0] == cs[i]);
}

/// The byte offset of every character position of `source`, the end included.
fn byte_offsets(source: &str, cs: &Vec<char>) -> (r: Vec<usize>)
    requires
        cs@ == source@,
    ensures
        r@.len() == cs@.len() + 1,
        forall|i: int| 0 <= i <= cs@.len() ==> #[trigger] r@[i] as int == byte_offset(cs@, i),
{
    let total: usize = source.as_bytes().len();
    let mut out: Vec<usize> = Vec::new();
    let mut off: usize = 0;
    let mut i: usize = 0;
    assert(cs@.skip(0) =~= cs@);
    out.push(0);
    while i < cs.len()
        invariant
            i <= cs.len(),
            total == encode_utf8(cs@).len(),
            off as int == byte_offset(cs@, i as int),
            out@.len() == i + 1,
            forall|k: int| 0 <= k <= i ==> #[trigger] out@[k] as int == byte_offset(cs@, k),
        decreases cs.len() - i,
    {
        let w = utf8_width(cs[i]);
        proof {
            encoding_unfolds(cs@, i as int);
        }
        off = off + w;
        out.push(off);
        i += 1;
    }
    out
}

// ---------------------------------------------------------------------------
// The whole source
// ---------------------------------------------------------------------------

/// The outcome of tokenizing: the tokens with their spans, or the first error.
pub type Lexed = Result<Seq<(TokenView, Span)>, (LexingErrorView, Span)>;

/// The tokens of `cs` from position `i` on.
pub open spec fn lex_from(cs: Seq<char>, i: int) -> Lexed
    decreases cs.len() - i,
{
    if i < 0 || i >= cs.len() {
        Ok(Seq::empty())
    } else {
        let scan = scan_at(cs, i);
        if scan.end <= i || scan.end > cs.len() {
            Err((LexingErrorView::UnexpectedToken, span_between(cs, i, cs.len() as int)))
        } else {
            match scan.lexeme {
                Lexeme::Fail(e) => Err((e, span_between(cs, i, scan.end))),
                Lexeme::Skip => lex_from(cs, scan.end),
                Lexeme::Token(t) => match lex_from(cs, scan.end) {
                    Ok(rest) => Ok(seq![(t, span_between(cs, i, scan.end))] + rest),
                    Err(e) => Err(e),
                },
            }
        }
    }
}

/// The tokens of a source text.
pub open spec fn lex(source: Seq<char>) -> Lexed {
    lex_from(source, 0)
}

/// `done` followed by what `rest` holds.
pub open spec fn lexed_after(done: Seq<(TokenView, Span)>, rest: Lexed) -> Lexed {
    match rest {
        Ok(more) => Ok(done + more),
        Err(e) => Err(e),
    }
}

/// What one lexeme is, in executable form.
enum Scanned {
    Token(Token),
    Skip,
    Fail(LexingError),
}

impl Scanned {
    spec fn lexeme(self) -> Lexeme {
        match self {
            Scanned::Token(t) => Lexeme::Token(t@),
            Scanned::Skip => Lexeme::Skip,
            Scanned::Fail(e) => Lexeme::Fail(e@),
        }
    }
}

fn word_to_token(word: String) -> (t: Token)
    ensures
        t@ == word_token(word@),
{
    let w = word.as_str();
    if same_text(w, "let") {
        Token::Let
    } else if same_text(w, "fn") {
        Token::Fn
    } else if same_text(w, "import") {
        Token::Import
    } else if same_text(w, "return") {
        Token::Return
    } else if same_text(w, "as") {
        Token::As
    } else if same_text(w, "if") {
        Token::If
    } else if same_text(w, "else") {
        Token::Else
    } else if same_text(w, "loop") {
        Token::Loop
    } else if same_text(w, "for") {
        Token::For
    } else if same_text(w, "break") {
        Token::Break
    } else if same_text(w, "continue") {
        Token::Continue
    } else if same_text(w, "null") {
        Token::Null
    } else if same_text(w, "true") {
        Token::Boolean(true)
    } else if same_text(w, "false") {
        Token::Boolean(false)
    } else {
        Token::Identifer(word)
    }
}

fn has(cs: &Vec<char>, i: usize, c: char) -> (r: bool)
    ensures
        r == at(cs@, i as int, c),
{
    i < cs.len() && cs[i] == c
}

fn number_at(cs: &Vec<char>, i: usize) -> (r: (Scanned, usize))
    requires
        i < cs.len(),
        is_digit(cs@[i as int]),
    ensures
        r.0.lexeme() == scan_number(cs@, i as int).lexeme,
        r.1 == scan_number(cs@, i as int).end,
        i < r.1 <= cs.len(),
{
    let d = scan_run(cs, i, Run::Digits);
    if has(cs, d, '.') && cs.len() - d > 1 && digit_check(cs[d + 1]) {
        let e = scan_run(cs, d + 1, Run::Digits);
        (Scanned::Token(Token::Float(text_of(cs, i, e))), e)
    } else {
        let e = scan_integer_end(cs, i + 1);
        match integer_value(cs, i, e) {
            Some(n) => (Scanned::Token(Token::Integer(n)), e),
            None => (
                Scanned::Fail(LexingError::InvalidInteger(String::from_str("Integer overflow"))),
                e,
            ),
        }
    }
}

fn symbol_at(cs: &Vec<char>, i: usize) -> (r: (Scanned, usize))
    requires
        i < cs.len(),
    ensures
        r.0.lexeme() == scan_symbol(cs@, i as int).lexeme,
        r.1 == scan_symbol(cs@, i as int).end,
        i < r.1 <= cs.len(),
{
    let c = cs[i];
    if c == '/' {
        if has(cs, i + 1, '/') {
            (Scanned::Skip, scan_run(cs, i + 2, Run::Line))
        } else if has(cs, i + 1, '*') {
            match scan_block_comment_end(cs, i + 2) {
                Some(e) => (Scanned::Skip, e),
                None => (Scanned::Token(Token::MultiLineCommentStart), i + 2),
            }
        } else {
            (Scanned::Fail(LexingError::UnexpectedToken), i + 1)
        }
    } else if c == '*' {
        if has(cs, i + 1, '/') {
            (Scanned::Token(Token::MultiLineCommentEnd), i + 2)
        } else {
            (Scanned::Token(Token::Star), i + 1)
        }
    } else if c == '.' {
        if has(cs, i + 1, '.') {
            if has(cs, i + 2, '=') {
                (Scanned::Token(Token::InclusiveRange), i + 3)
            } else {
                (Scanned::Token(Token::Range), i + 2)
            }
        } else {
            (Scanned::Token(Token::Dot), i + 1)
        }
    } else if c == '=' {
        if has(cs, i + 1, '=') {
            (Scanned::Token(Token::IsEqual), i + 2)
        } else {
            (Scanned::Token(Token::Assign), i + 1)
        }
    } else if c == '!' {
        if has(cs, i + 1, '=') {
            (Scanned::Token(Token::IsUnequal), i + 2)
        } else {
            (Scanned::Fail(LexingError::UnexpectedToken), i + 1)
        }
    } else if c == '<' {
        if has(cs, i + 1, '=') {
            (Scanned::Token(Token::LessThanOrEqual), i + 2)
        } else {
            (Scanned::Token(Token::LessThan), i + 1)
        }
    } else if c == '>' {
        if has(cs, i + 1, '=') {
            (Scanned::Token(Token::GreaterThanOrEqual), i + 2)
        } else {
            (Scanned::Token(Token::GreaterThan), i + 1)
        }
    } else if c == '+' {
        (Scanned::Token(Token::Plus), i + 1)
    } else if c == '-' {
        (Scanned::Token(Token::Minus), i + 1)
    } else if c == ',' {
        (Scanned::Token(Token::Comma), i + 1)
    } else if c == ';' {
        (Scanned::Token(Token::Semicolon), i + 1)
    } else if c == '(' {
        (Scanned::Token(Token::LParen), i + 1)
    } else if c == ')' {
        (Scanned::Token(Token::RParen), i + 1)
    } else if c == '{' {
        (Scanned::Token(Token::LBracket), i + 1)
    } else if c == '}' {
        (Scanned::Token(Token::RBracket), i + 1)
    } else if c == '[' {
        (Scanned::Token(Token::LSquareBracket), i + 1)
    } else if c == ']' {
        (Scanned::Token(Token::RSquareBracket), i + 1)
    } else {
        (Scanned::Fail(LexingError::UnexpectedToken), i + 1)
    }
}

fn lexeme_at(cs: &Vec<char>, i: usize) -> (r: (Scanned, usize))
    requires
        i < cs.len(),
    ensures
        r.0.lexeme() == scan_at(cs@, i as int).lexeme,
        r.1 == scan_at(cs@, i as int).end,
        i < r.1 <= cs.len(),
{
    let c = cs[i];
    proof {
        run_end_bounds(cs@, i as int, Run::Space);
        run_end_bounds(cs@, i as int, Run::Word);
    }
    if space_check(c) {
        (Scanned::Skip, scan_run(cs, i, Run::Space))
    } else if word_start_check(c) {
        let e = scan_run(cs, i, Run::Word);
        (Scanned::Token(word_to_token(text_of(cs, i, e))), e)
    } else if digit_check(c) {
        number_at(cs, i)
    } else if c == '"' || c == '\'' {
        match scan_string_end(cs, i + 1, c) {
            Some(e) => (Scanned::Token(Token::String(text_of(cs, i + 1, e - 1))), e),
            None => (Scanned::Fail(LexingError::UnexpectedToken), cs.len()),
        }
    } else {
        symbol_at(cs, i)
    }
}

/// Splits a source text into tokens, each with the byte span it came from.
/// Blanks and comments give no token; the first error ends the call.
pub fn tokenize(source: &str) -> (r: Result<Vec<(Token, Span)>, (LexingError, Span)>)
    ensures
        match r {
            Ok(tokens) => lex(source@) == Ok::<_, (LexingErrorView, Span)>(tokens_view(tokens@)),
            Err(e) => lex(source@) == Err::<Seq<(TokenView, Span)>, _>((e.0@, e.1)),
        },
{
    let cs = chars_of(source);
    let offsets = byte_offsets(source, &cs);
    let mut tokens: Vec<(Token, Span)> = Vec::new();
    let mut i: usize = 0;
    proof {
        assert(tokens_view(tokens@) =~= Seq::empty());
        lexed_after_nothing(lex_from(cs@, 0));
    }
    while i < cs.len()
        invariant
            i <= cs.len(),
            cs@ == source@,
            offsets@.len() == cs@.len() + 1,
            forall|k: int| 0 <= k <= cs@.len() ==> #[trigger] offsets@[k] as int == byte_offset(cs@, k),
            lex(cs@) == lexed_after(tokens_view(tokens@), lex_from(cs@, i as int)),
        decreases cs.len() - i,
    {
        let (scanned, end) = lexeme_at(&cs, i);
        let span = Span { start: offsets[i], end: offsets[end] };
        assert(span == span_between(cs@, i as int, end as int));
        match scanned {
            Scanned::Fail(e) => {
                return Err((e, span));
            },
            Scanned::Skip => {},
            Scanned::Token(t) => {
                let ghost before = tokens_view(tokens@);
                let ghost item = (t@, span);
                tokens.push((t, span));
                proof {
                    assert(tokens_view(tokens@) =~= before.push(item));
                    lexed_after_one(before, item, lex_from(cs@, end as int));
                }
            },
        }
        i = end;
    }
    proof {
        assert(tokens_view(tokens@) + Seq::<(TokenView, Span)>::empty() =~= tokens_view(tokens@));
    }
    Ok(tokens)
}

proof fn lexed_after_nothing(rest: Lexed)
    ensures
        lexed_after(Seq::empty(), rest) == rest,
{
    match rest {
        Ok(more) => {
            assert(Seq::<(TokenView, Span)>::empty() + more =~= more);
        },
        Err(_) => {},
    }
}

proof fn lexed_after_one(done: Seq<(TokenView, Span)>, item: (TokenView, Span), rest: Lexed)
    ensures
        lexed_after(done.push(item), rest) == lexed_after(
            done,
            match rest {
                Ok(more) => Ok(seq![item] + more),
                Err(e) => Err(e),
            },
        ),
{
    match rest {
        Ok(more) => {
            assert(done.push(item) + more =~= done + (seq![item] + more));
        },
        Err(_) => {},
    }
}

} // verus!
