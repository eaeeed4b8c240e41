//! The parser: recursive descent over the token sequence, each function
//! proved to compute what the grammar of the same name defines.

use crate::ast::{names_view, nodes_view, BinaryOp, Expr, ExprView, Span, SpannedExpr, SpannedView};
use crate::grammar;
use crate::grammar::{is_at, join, mismatch, Expected, ParseError, ParseErrorView, Parsed};
use crate::lexer::{tokens_view, Token, TokenView};
use crate::text::same_text;
use vstd::prelude::*;

verus! {

/// Whether an executable outcome is the outcome `s` that the grammar defines.
pub open spec fn agrees(r: Result<(SpannedExpr, usize), ParseError>, s: Parsed<SpannedView>) -> bool {
    match r {
        Ok((e, q)) => s == Ok::<(SpannedView, int), ParseErrorView>((e@, q as int)),
        Err(e) => s == Err::<(SpannedView, int), ParseErrorView>(e@),
    }
}

/// The same for a list of nodes.
pub open spec fn agrees_nodes(
    r: Result<(Vec<SpannedExpr>, usize), ParseError>,
    s: Parsed<Seq<SpannedView>>,
) -> bool {
    match r {
        Ok((v, q)) => s == Ok::<(Seq<SpannedView>, int), ParseErrorView>((nodes_view(v@), q as int)),
        Err(e) => s == Err::<(Seq<SpannedView>, int), ParseErrorView>(e@),
    }
}

/// The same for a list of names.
pub open spec fn agrees_names(
    r: Result<(Vec<String>, usize), ParseError>,
    s: Parsed<Seq<Seq<char>>>,
) -> bool {
    match r {
        Ok((v, q)) => s == Ok::<(Seq<Seq<char>>, int), ParseErrorView>((names_view(v@), q as int)),
        Err(e) => s == Err::<(Seq<Seq<char>>, int), ParseErrorView>(e@),
    }
}

/// Whether two tokens are the same, payload included.
pub fn same_token(a: &Token, b: &Token) -> (r: bool)
    ensures
        r == (a@ == b@),
{
    match (a, b) {
        (Token::MultiLineCommentStart, Token::MultiLineCommentStart) => true,
        (Token::MultiLineCommentEnd, Token::MultiLineCommentEnd) => true,
        (Token::Let, Token::Let) => true,
        (Token::Fn, Token::Fn) => true,
        (Token::Import, Token::Import) => true,
        (Token::Return, Token::Return) => true,
        (Token::As, Token::As) => true,
        (Token::Comma, Token::Comma) => true,
        (Token::Semicolon, Token::Semicolon) => true,
        (Token::If, Token::If) => true,
        (Token::Else, Token::Else) => true,
        (Token::Loop, Token::Loop) => true,
        (Token::For, Token::For) => true,
        (Token::Break, Token::Break) => true,
        (Token::Continue, Token::Continue) => true,
        (Token::Null, Token::Null) => true,
        (Token::Identifer(x), Token::Identifer(y)) => same_text(x.as_str(), y.as_str()),
        (Token::Integer(x), Token::Integer(y)) => *x == *y,
        (Token::Float(x), Token::Float(y)) => same_text(x.as_str(), y.as_str()),
        (Token::String(x), Token::String(y)) => same_text(x.as_str(), y.as_str()),
        (Token::Boolean(x), Token::Boolean(y)) => *x == *y,
        (Token::LParen, Token::LParen) => true,
        (Token::RParen, Token::RParen) => true,
        (Token::LBracket, Token::LBracket) => true,
        (Token::RBracket, Token::RBracket) => true,
        (Token::LSquareBracket, Token::LSquareBracket) => true,
        (Token::RSquareBracket, Token::RSquareBracket) => true,
        (Token::Dot, Token::Dot) => true,
        (Token::Range, Token::Range) => true,
        (Token::InclusiveRange, Token::InclusiveRange) => true,
        (Token::Plus, Token::Plus) => true,
        (Token::Minus, Token::Minus) => true,
        (Token::Assign, Token::Assign) => true,
        (Token::IsEqual, Token::IsEqual) => true,
        (Token::IsUnequal, Token::IsUnequal) => true,
        (Token::LessThan, Token::LessThan) => true,
        (Token::GreaterThan, Token::GreaterThan) => true,
        (Token::LessThanOrEqual, Token::LessThanOrEqual) => true,
        (Token::GreaterThanOrEqual, Token::GreaterThanOrEqual) => true,
        (Token::Star, Token::Star) => true,
        _ => false,
    }
}

fn at(tokens: &Vec<(Token, Span)>, p: usize, t: &Token) -> (r: bool)
    ensures
        r == is_at(tokens_view(tokens@), p as int, t@),
{
    p < tokens.len() && same_token(&tokens[p].0, t)
}

fn fail(tokens: &Vec<(Token, Span)>, p: usize, expected: Expected) -> (r: ParseError)
    ensures
        r@ == mismatch(tokens_view(tokens@), p as int, expected),
{
    if p < tokens.len() {
        ParseError { expected, found: Some(tokens[p].0.copy()), span: tokens[p].1 }
    } else if tokens.len() > 0 {
        let end = tokens[tokens.len() - 1].1.end;
        ParseError { expected, found: None, span: Span { start: end, end } }
    } else {
        ParseError { expected, found: None, span: Span { start: 0, end: 0 } }
    }
}

fn span_join(a: Span, b: Span) -> (r: Span)
    ensures
        r == join(a, b),
{
    Span { start: a.start, end: b.end }
}

fn name_at(tokens: &Vec<(Token, Span)>, p: usize) -> (r: Option<String>)
    ensures
        match r {
            Some(s) => p < tokens.len() && tokens_view(tokens@)[p as int].0 == TokenView::Identifer(s@),
            None => !(p < tokens.len() && tokens_view(tokens@)[p as int].0 is Identifer),
        },
{
    if p < tokens.len() {
        match &tokens[p].0 {
            Token::Identifer(s) => Some(s.clone()),
            _ => None,
        }
    } else {
        None
    }
}

fn comparison_at(tokens: &Vec<(Token, Span)>, p: usize) -> (r: Option<BinaryOp>)
    ensures
        r is Some ==> p < tokens.len(),
        p < tokens.len() ==> r == grammar::comparison_of(tokens_view(tokens@)[p as int].0),
        p >= tokens.len() ==> r is None,
{
    if p < tokens.len() {
        match &tokens[p].0 {
            Token::IsEqual => Some(BinaryOp::Equal),
            Token::IsUnequal => Some(BinaryOp::NotEqual),
            Token::LessThan => Some(BinaryOp::LessThan),
            Token::LessThanOrEqual => Some(BinaryOp::LessThanOrEqual),
            Token::GreaterThan => Some(BinaryOp::GreaterThan),
            Token::GreaterThanOrEqual => Some(BinaryOp::GreaterThanOrEqual),
            _ => None,
        }
    } else {
        None
    }
}

fn additive_at(tokens: &Vec<(Token, Span)>, p: usize) -> (r: Option<BinaryOp>)
    ensures
        r is Some ==> p < tokens.len(),
        p < tokens.len() ==> r == grammar::additive_of(tokens_view(tokens@)[p as int].0),
        p >= tokens.len() ==> r is None,
{
    if p < tokens.len() {
        match &tokens[p].0 {
            Token::Plus => Some(BinaryOp::Add),
            Token::Minus => Some(BinaryOp::Sub),
            _ => None,
        }
    } else {
        None
    }
}

fn atom_at(tokens: &Vec<(Token, Span)>, p: usize) -> (r: Option<Expr>)
    requires
        p < tokens.len(),
    ensures
        match r {
            Some(e) => grammar::atom_of(tokens_view(tokens@)[p as int].0) == Some(e@),
            None => grammar::atom_of(tokens_view(tokens@)[p as int].0) is None,
        },
{
    match &tokens[p].0 {
        Token::Integer(n) => Some(Expr::Int(*n)),
        Token::Float(s) => Some(Expr::FloatLiteral(s.clone())),
        Token::String(s) => Some(Expr::String(s.clone())),
        Token::Identifer(s) => Some(Expr::Identifier(s.clone())),
        Token::Boolean(b) => Some(Expr::Bool(*b)),
        Token::Null => Some(Expr::Null),
        Token::Break => Some(Expr::Break),
        Token::Continue => Some(Expr::Continue),
        _ => None,
    }
}

fn make_binary(op: BinaryOp, left: SpannedExpr, right: SpannedExpr) -> (r: SpannedExpr)
    ensures
        r@ == grammar::binary(op, left@, right@),
{
    let span = span_join(left.span, right.span);
    SpannedExpr { node: Expr::Binary { op, left: Box::new(left), right: Box::new(right) }, span }
}

fn make_range(start: SpannedExpr, end: SpannedExpr, inclusive: bool) -> (r: SpannedExpr)
    ensures
        r@ == grammar::range(start@, end@, inclusive),
{
    let span = span_join(start.span, end.span);
    SpannedExpr { node: Expr::Range { start: Box::new(start), end: Box::new(end), inclusive }, span }
}

fn no_nodes() -> (r: Vec<SpannedExpr>)
    ensures
        nodes_view(r@) == Seq::<SpannedView>::empty(),
{
    let out: Vec<SpannedExpr> = Vec::new();
    assert(nodes_view(out@) =~= Seq::<SpannedView>::empty());
    out
}

fn no_names() -> (r: Vec<String>)
    ensures
        names_view(r@) == Seq::<Seq<char>>::empty(),
{
    let out: Vec<String> = Vec::new();
    assert(names_view(out@) =~= Seq::<Seq<char>>::empty());
    out
}

fn push_node(v: Vec<SpannedExpr>, e: SpannedExpr) -> (r: Vec<SpannedExpr>)
    ensures
        nodes_view(r@) == nodes_view(v@).push(e@),
{
    let mut out = v;
    out.push(e);
    assert(nodes_view(out@) =~= nodes_view(v@).push(e@));
    out
}

fn push_name(v: Vec<String>, s: String) -> (r: Vec<String>)
    ensures
        names_view(r@) == names_view(v@).push(s@),
{
    let mut out = v;
    out.push(s);
    assert(names_view(out@) =~= names_view(v@).push(s@));
    out
}

// ---------------------------------------------------------------------------
// Expressions
// ---------------------------------------------------------------------------

/// Parses the expression that starts at position `p`.
pub fn parse_expr(tokens: &Vec<(Token, Span)>, p: usize) -> (r: Result<(SpannedExpr, usize), ParseError>)
    ensures
        agrees(r, grammar::parse_expr(tokens_view(tokens@), p as int)),
        r matches Ok((_, q)) ==> p < q <= tokens.len(),
    decreases tokens.len() - p, 9nat,
{
    proof {
        grammar::parse_expr_unfolds(tokens_view(tokens@), p as int);
    }
    match parse_inclusive_range(tokens, p) {
        Ok((left, q)) => comparison_rest(tokens, left, q),
        Err(e) => Err(e),
    }
}

fn comparison_rest(tokens: &Vec<(Token, Span)>, left: SpannedExpr, p: usize) -> (r: Result<
    (SpannedExpr, usize),
    ParseError,
>)
    requires
        p <= tokens.len(),
    ensures
        agrees(r, grammar::comparison_rest(tokens_view(tokens@), left@, p as int)),
        r matches Ok((_, q)) ==> p <= q <= tokens.len(),
    decreases tokens.len() - p, 9nat,
{
    match comparison_at(tokens, p) {
        Some(op) => match parse_inclusive_range(tokens, p + 1) {
            Ok((right, q)) => comparison_rest(tokens, make_binary(op, left, right), q),
            Err(e) => Err(e),
        },
        None => Ok((left, p)),
    }
}

fn parse_inclusive_range(tokens: &Vec<(Token, Span)>, p: usize) -> (r: Result<
    (SpannedExpr, usize),
    ParseError,
>)
    ensures
        agrees(r, grammar::parse_inclusive_range(tokens_view(tokens@), p as int)),
        r matches Ok((_, q)) ==> p < q <= tokens.len(),
    decreases tokens.len() - p, 8nat,
{
    match parse_range(tokens, p) {
        Ok((left, q)) => if at(tokens, q, &Token::InclusiveRange) {
            match parse_range(tokens, q + 1) {
                Ok((right, r)) => Ok((make_range(left, right, true), r)),
                Err(e) => Err(e),
            }
        } else {
            Ok((left, q))
        },
        Err(e) => Err(e),
    }
}

fn parse_range(tokens: &Vec<(Token, Span)>, p: usize) -> (r: Result<(SpannedExpr, usize), ParseError>)
    ensures
        agrees(r, grammar::parse_range(tokens_view(tokens@), p as int)),
        r matches Ok((_, q)) ==> p < q <= tokens.len(),
    decreases tokens.len() - p, 7nat,
{
    match parse_additive(tokens, p) {
        Ok((left, q)) => if at(tokens, q, &Token::Range) {
            match parse_additive(tokens, q + 1) {
                Ok((right, r)) => Ok((make_range(left, right, false), r)),
                Err(e) => Err(e),
            }
        } else {
            Ok((left, q))
        },
        Err(e) => Err(e),
    }
}

fn parse_additive(tokens: &Vec<(Token, Span)>, p: usize) -> (r: Result<(SpannedExpr, usize), ParseError>)
    ensures
        agrees(r, grammar::parse_additive(tokens_view(tokens@), p as int)),
        r matches Ok((_, q)) ==> p < q <= tokens.len(),
    decreases tokens.len() - p, 6nat,
{
    proof {
        grammar::parse_additive_unfolds(tokens_view(tokens@), p as int);
    }
    match parse_unary(tokens, p) {
        Ok((left, q)) => additive_rest(tokens, left, q),
        Err(e) => Err(e),
    }
}

fn additive_rest(tokens: &Vec<(Token, Span)>, left: SpannedExpr, p: usize) -> (r: Result<
    (SpannedExpr, usize),
    ParseError,
>)
    requires
        p <= tokens.len(),
    ensures
        agrees(r, grammar::additive_rest(tokens_view(tokens@), left@, p as int)),
        r matches Ok((_, q)) ==> p <= q <= tokens.len(),
    decreases tokens.len() - p, 6nat,
{
    match additive_at(tokens, p) {
        Some(op) => match parse_unary(tokens, p + 1) {
            Ok((right, q)) => additive_rest(tokens, make_binary(op, left, right), q),
            Err(e) => Err(e),
        },
        None => Ok((left, p)),
    }
}

fn parse_unary(tokens: &Vec<(Token, Span)>, p: usize) -> (r: Result<(SpannedExpr, usize), ParseError>)
    ensures
        agrees(r, grammar::parse_unary(tokens_view(tokens@), p as int)),
        r matches Ok((_, q)) ==> p < q <= tokens.len(),
    decreases tokens.len() - p, 5nat,
{
    if at(tokens, p, &Token::Minus) {
        match parse_unary(tokens, p + 1) {
            Ok((inner, q)) => {
                let span = span_join(tokens[p].1, inner.span);
                Ok((SpannedExpr { node: Expr::Neg(Box::new(inner)), span }, q))
            },
            Err(e) => Err(e),
        }
    } else {
        parse_postfix(tokens, p)
    }
}

fn parse_postfix(tokens: &Vec<(Token, Span)>, p: usize) -> (r: Result<(SpannedExpr, usize), ParseError>)
    ensures
        agrees(r, grammar::parse_postfix(tokens_view(tokens@), p as int)),
        r matches Ok((_, q)) ==> p < q <= tokens.len(),
    decreases tokens.len() - p, 4nat,
{
    match parse_primary(tokens, p) {
        Ok((left, q)) => postfix_rest(tokens, left, q),
        Err(e) => Err(e),
    }
}

fn postfix_rest(tokens: &Vec<(Token, Span)>, left: SpannedExpr, p: usize) -> (r: Result<
    (SpannedExpr, usize),
    ParseError,
>)
    requires
        p <= tokens.len(),
    ensures
        agrees(r, grammar::postfix_rest(tokens_view(tokens@), left@, p as int)),
        r matches Ok((_, q)) ==> p <= q <= tokens.len(),
    decreases tokens.len() - p, 4nat,
{
    if at(tokens, p, &Token::Dot) {
        match name_at(tokens, p + 1) {
            Some(property) => {
                let span = span_join(left.span, tokens[p + 1].1);
                postfix_rest(
                    tokens,
                    SpannedExpr { node: Expr::PropertyAccess { object: Box::new(left), property }, span },
                    p + 2,
                )
            },
            None => Err(fail(tokens, p + 1, Expected::Identifier)),
        }
    } else if at(tokens, p, &Token::LParen) {
        match parse_arguments(tokens, p + 1, no_nodes()) {
            Ok((args, q)) => {
                let span = span_join(left.span, tokens[q - 1].1);
                postfix_rest(
                    tokens,
                    SpannedExpr { node: Expr::Call { callee: Box::new(left), args }, span },
                    q,
                )
            },
            Err(e) => Err(e),
        }
    } else if at(tokens, p, &Token::LSquareBracket) {
        match parse_expr(tokens, p + 1) {
            Ok((index, q)) => if at(tokens, q, &Token::RSquareBracket) {
                let span = span_join(left.span, tokens[q].1);
                postfix_rest(
                    tokens,
                    SpannedExpr {
                        node: Expr::IndexAccess { object: Box::new(left), index: Box::new(index) },
                        span,
                    },
                    q + 1,
                )
            } else {
                Err(fail(tokens, q, Expected::RSquareBracket))
            },
            Err(e) => Err(e),
        }
    } else {
        Ok((left, p))
    }
}

fn parse_arguments(tokens: &Vec<(Token, Span)>, p: usize, done: Vec<SpannedExpr>) -> (r: Result<
    (Vec<SpannedExpr>, usize),
    ParseError,
>)
    requires
        p <= tokens.len(),
    ensures
        agrees_nodes(r, grammar::parse_arguments(tokens_view(tokens@), p as int, nodes_view(done@))),
        r matches Ok((_, q)) ==> p < q <= tokens.len(),
    decreases tokens.len() - p, 10nat,
{
    if done.len() == 0 && at(tokens, p, &Token::RParen) {
        Ok((done, p + 1))
    } else {
        match parse_expr(tokens, p) {
            Ok((arg, q)) => if at(tokens, q, &Token::Comma) {
                parse_arguments(tokens, q + 1, push_node(done, arg))
            } else if at(tokens, q, &Token::RParen) {
                Ok((push_node(done, arg), q + 1))
            } else {
                Err(fail(tokens, q, Expected::CommaOrRParen))
            },
            Err(e) => Err(e),
        }
    }
}

fn parse_items(tokens: &Vec<(Token, Span)>, p: usize, done: Vec<SpannedExpr>) -> (r: Result<
    (Vec<SpannedExpr>, usize),
    ParseError,
>)
    requires
        p <= tokens.len(),
    ensures
        agrees_nodes(r, grammar::parse_items(tokens_view(tokens@), p as int, nodes_view(done@))),
        r matches Ok((_, q)) ==> p < q <= tokens.len(),
    decreases tokens.len() - p, 10nat,
{
    match parse_expr(tokens, p) {
        Ok((item, q)) => if at(tokens, q, &Token::Comma) {
            if at(tokens, q + 1, &Token::RSquareBracket) {
                Ok((push_node(done, item), q + 2))
            } else {
                parse_items(tokens, q + 1, push_node(done, item))
            }
        } else if at(tokens, q, &Token::RSquareBracket) {
            Ok((push_node(done, item), q + 1))
        } else {
            Err(fail(tokens, q, Expected::CommaOrRSquareBracket))
        },
        Err(e) => Err(e),
    }
}

fn parse_primary(tokens: &Vec<(Token, Span)>, p: usize) -> (r: Result<(SpannedExpr, usize), ParseError>)
    ensures
        agrees(r, grammar::parse_primary(tokens_view(tokens@), p as int)),
        r matches Ok((_, q)) ==> p < q <= tokens.len(),
    decreases tokens.len() - p, 3nat,
{
    if p >= tokens.len() {
        return Err(fail(tokens, p, Expected::Expression));
    }
    match atom_at(tokens, p) {
        Some(node) => Ok((SpannedExpr { node, span: tokens[p].1 }, p + 1)),
        None => {
            if at(tokens, p, &Token::LSquareBracket) {
                match parse_items(tokens, p + 1, no_nodes()) {
                    Ok((items, q)) => {
                        let span = span_join(tokens[p].1, tokens[q - 1].1);
                        Ok((SpannedExpr { node: Expr::Array(items), span }, q))
                    },
                    Err(e) => Err(e),
                }
            } else if at(tokens, p, &Token::LParen) {
                match parse_expr(tokens, p + 1) {
                    Ok((inner, q)) => if at(tokens, q, &Token::RParen) {
                        let span = span_join(tokens[p].1, tokens[q].1);
                        Ok((SpannedExpr { node: inner.node, span }, q + 1))
                    } else {
                        Err(fail(tokens, q, Expected::RParen))
                    },
                    Err(e) => Err(e),
                }
            } else {
                Err(fail(tokens, p, Expected::Expression))
            }
        },
    }
}

// ---------------------------------------------------------------------------
// Statements
// ---------------------------------------------------------------------------

fn parse_parameters(tokens: &Vec<(Token, Span)>, p: usize, done: Vec<String>) -> (r: Result<
    (Vec<String>, usize),
    ParseError,
>)
    requires
        p <= tokens.len(),
    ensures
        agrees_names(r, grammar::parse_parameters(tokens_view(tokens@), p as int, names_view(done@))),
        r matches Ok((_, q)) ==> p < q <= tokens.len(),
    decreases tokens.len() - p,
{
    if done.len() == 0 && at(tokens, p, &Token::RParen) {
        return Ok((done, p + 1));
    }
    match name_at(tokens, p) {
        Some(name) => {
            if at(tokens, p + 1, &Token::Comma) {
                parse_parameters(tokens, p + 2, push_name(done, name))
            } else if at(tokens, p + 1, &Token::RParen) {
                Ok((push_name(done, name), p + 2))
            } else {
                Err(fail(tokens, p + 1, Expected::CommaOrRParen))
            }
        },
        None => Err(fail(tokens, p, Expected::Identifier)),
    }
}

/// Parses the block that starts at position `p`.
pub fn parse_block(tokens: &Vec<(Token, Span)>, p: usize) -> (r: Result<(SpannedExpr, usize), ParseError>)
    ensures
        agrees(r, grammar::parse_block(tokens_view(tokens@), p as int)),
        r matches Ok((_, q)) ==> p < q <= tokens.len(),
    decreases tokens.len() - p, 10nat,
{
    proof {
        grammar::parse_block_unfolds(tokens_view(tokens@), p as int);
    }
    if at(tokens, p, &Token::LBracket) {
        match parse_block_rest(tokens, p + 1, no_nodes()) {
            Ok((stmts, q)) => {
                let span = span_join(tokens[p].1, tokens[q - 1].1);
                Ok((SpannedExpr { node: Expr::Block(stmts), span }, q))
            },
            Err(e) => Err(e),
        }
    } else {
        Err(fail(tokens, p, Expected::LBracket))
    }
}

fn parse_block_rest(tokens: &Vec<(Token, Span)>, p: usize, done: Vec<SpannedExpr>) -> (r: Result<
    (Vec<SpannedExpr>, usize),
    ParseError,
>)
    requires
        p <= tokens.len(),
    ensures
        agrees_nodes(r, grammar::parse_block_rest(tokens_view(tokens@), p as int, nodes_view(done@))),
        r matches Ok((_, q)) ==> p < q <= tokens.len(),
    decreases tokens.len() - p, 14nat,
{
    if at(tokens, p, &Token::RBracket) {
        Ok((done, p + 1))
    } else if p >= tokens.len() {
        Err(fail(tokens, p, Expected::StatementOrRBracket))
    } else {
        match parse_statement(tokens, p) {
            Ok((stmt, q)) => parse_block_rest(tokens, q, push_node(done, stmt)),
            Err(e) => Err(e),
        }
    }
}

fn parse_let(tokens: &Vec<(Token, Span)>, p: usize) -> (r: Result<(SpannedExpr, usize), ParseError>)
    requires
        p < tokens.len(),
    ensures
        agrees(r, grammar::parse_let(tokens_view(tokens@), p as int)),
        r matches Ok((_, q)) ==> p < q <= tokens.len(),
    decreases tokens.len() - p, 10nat,
{
    match name_at(tokens, p + 1) {
        None => Err(fail(tokens, p + 1, Expected::Identifier)),
        Some(name) => {
            if !at(tokens, p + 2, &Token::Assign) {
                return Err(fail(tokens, p + 2, Expected::Assign));
            }
            match parse_expr(tokens, p + 3) {
                Ok((value, q)) => if at(tokens, q, &Token::Semicolon) {
                    let span = span_join(tokens[p].1, tokens[q].1);
                    Ok((SpannedExpr { node: Expr::Let { name, value: Box::new(value) }, span }, q + 1))
                } else {
                    Err(fail(tokens, q, Expected::Semicolon))
                },
                Err(e) => Err(e),
            }
        },
    }
}

fn parse_function(tokens: &Vec<(Token, Span)>, p: usize) -> (r: Result<(SpannedExpr, usize), ParseError>)
    requires
        p < tokens.len(),
    ensures
        agrees(r, grammar::parse_function(tokens_view(tokens@), p as int)),
        r matches Ok((_, q)) ==> p < q <= tokens.len(),
    decreases tokens.len() - p, 11nat,
{
    match name_at(tokens, p + 1) {
        None => Err(fail(tokens, p + 1, Expected::Identifier)),
        Some(name) => {
            if !at(tokens, p + 2, &Token::LParen) {
                return Err(fail(tokens, p + 2, Expected::LParen));
            }
            match parse_parameters(tokens, p + 3, no_names()) {
                Ok((args, q)) => match parse_block(tokens, q) {
                    Ok((body, r)) => {
                        let span = span_join(tokens[p].1, body.span);
                        Ok((SpannedExpr { node: Expr::Function { name, args, body: Box::new(body) }, span }, r))
                    },
                    Err(e) => Err(e),
                },
                Err(e) => Err(e),
            }
        },
    }
}

fn parse_for(tokens: &Vec<(Token, Span)>, p: usize) -> (r: Result<(SpannedExpr, usize), ParseError>)
    requires
        p < tokens.len(),
    ensures
        agrees(r, grammar::parse_for(tokens_view(tokens@), p as int)),
        r matches Ok((_, q)) ==> p < q <= tokens.len(),
    decreases tokens.len() - p, 11nat,
{
    match name_at(tokens, p + 1) {
        None => Err(fail(tokens, p + 1, Expected::Identifier)),
        Some(iterator_name) => {
            if !at(tokens, p + 2, &Token::Assign) {
                return Err(fail(tokens, p + 2, Expected::Assign));
            }
            match parse_expr(tokens, p + 3) {
                Ok((range, q)) => match parse_block(tokens, q) {
                    Ok((body, r)) => {
                        let span = span_join(tokens[p].1, body.span);
                        Ok(
                            (
                                SpannedExpr {
                                    node: Expr::ForLoop {
                                        iterator_name,
                                        iterator_range: Box::new(range),
                                        body: Box::new(body),
                                    },
                                    span,
                                },
                                r,
                            ),
                        )
                    },
                    Err(e) => Err(e),
                },
                Err(e) => Err(e),
            }
        },
    }
}

fn parse_if(tokens: &Vec<(Token, Span)>, p: usize) -> (r: Result<(SpannedExpr, usize), ParseError>)
    requires
        p < tokens.len(),
    ensures
        agrees(r, grammar::parse_if(tokens_view(tokens@), p as int)),
        r matches Ok((_, q)) ==> p < q <= tokens.len(),
    decreases tokens.len() - p, 11nat,
{
    match parse_expr(tokens, p + 1) {
        Ok((condition, q)) => match parse_block(tokens, q) {
            Ok((then_branch, r)) => if at(tokens, r, &Token::Else) {
                match parse_block(tokens, r + 1) {
                    Ok((else_branch, s)) => {
                        let span = span_join(tokens[p].1, else_branch.span);
                        Ok(
                            (
                                SpannedExpr {
                                    node: Expr::If {
                                        condition: Box::new(condition),
                                        then_branch: Box::new(then_branch),
                                        else_branch: Some(Box::new(else_branch)),
                                    },
                                    span,
                                },
                                s,
                            ),
                        )
                    },
                    Err(e) => Err(e),
                }
            } else {
                let span = span_join(tokens[p].1, then_branch.span);
                Ok(
                    (
                        SpannedExpr {
                            node: Expr::If {
                                condition: Box::new(condition),
                                then_branch: Box::new(then_branch),
                                else_branch: None,
                            },
                            span,
                        },
                        r,
                    ),
                )
            },
            Err(e) => Err(e),
        },
        Err(e) => Err(e),
    }
}

fn module_name_at(tokens: &Vec<(Token, Span)>, p: usize) -> (r: Option<String>)
    ensures
        match r {
            Some(s) => p < tokens.len() && grammar::module_name_of(tokens_view(tokens@)[p as int].0)
                == Some(s@),
            None => !(p < tokens.len() && grammar::module_name_of(tokens_view(tokens@)[p as int].0)
                is Some),
        },
{
    if p < tokens.len() {
        match &tokens[p].0 {
            Token::String(s) => Some(s.clone()),
            Token::Identifer(s) => Some(s.clone()),
            _ => None,
        }
    } else {
        None
    }
}

fn alias_at(tokens: &Vec<(Token, Span)>, p: usize) -> (r: Option<String>)
    ensures
        match r {
            Some(s) => p < tokens.len() && grammar::alias_of(tokens_view(tokens@)[p as int].0) == Some(
                s@,
            ),
            None => !(p < tokens.len() && grammar::alias_of(tokens_view(tokens@)[p as int].0) is Some),
        },
{
    if p < tokens.len() {
        match &tokens[p].0 {
            Token::Identifer(s) => Some(s.clone()),
            Token::Star => Some(String::from_str("*")),
            _ => None,
        }
    } else {
        None
    }
}

fn parse_import(tokens: &Vec<(Token, Span)>, p: usize) -> (r: Result<(SpannedExpr, usize), ParseError>)
    requires
        p < tokens.len(),
    ensures
        agrees(r, grammar::parse_import(tokens_view(tokens@), p as int)),
        r matches Ok((_, q)) ==> p < q <= tokens.len(),
{
    match module_name_at(tokens, p + 1) {
        None => Err(fail(tokens, p + 1, Expected::ModuleName)),
        Some(name) => {
            if at(tokens, p + 2, &Token::As) {
                match alias_at(tokens, p + 3) {
                    None => Err(fail(tokens, p + 3, Expected::Alias)),
                    Some(alias) => {
                        if !at(tokens, p + 4, &Token::Semicolon) {
                            return Err(fail(tokens, p + 4, Expected::Semicolon));
                        }
                        let span = span_join(tokens[p].1, tokens[p + 4].1);
                        Ok(
                            (
                                SpannedExpr { node: Expr::Import { name, import_as: Some(alias) }, span },
                                p + 5,
                            ),
                        )
                    },
                }
            } else if at(tokens, p + 2, &Token::Semicolon) {
                let span = span_join(tokens[p].1, tokens[p + 2].1);
                Ok((SpannedExpr { node: Expr::Import { name, import_as: None }, span }, p + 3))
            } else {
                Err(fail(tokens, p + 2, Expected::Semicolon))
            }
        },
    }
}

fn parse_return(tokens: &Vec<(Token, Span)>, p: usize) -> (r: Result<(SpannedExpr, usize), ParseError>)
    requires
        p < tokens.len(),
    ensures
        agrees(r, grammar::parse_return(tokens_view(tokens@), p as int)),
        r matches Ok((_, q)) ==> p < q <= tokens.len(),
    decreases tokens.len() - p, 10nat,
{
    if at(tokens, p + 1, &Token::Semicolon) {
        let span = span_join(tokens[p].1, tokens[p + 1].1);
        let nothing = SpannedExpr { node: Expr::Null, span: tokens[p + 1].1 };
        assert(nothing@ == (SpannedView { node: ExprView::Null, span: tokens[p + 1].1 }));
        Ok((SpannedExpr { node: Expr::Return(Box::new(nothing)), span }, p + 2))
    } else {
        match parse_expr(tokens, p + 1) {
            Ok((value, q)) => if at(tokens, q, &Token::Semicolon) {
                let span = span_join(tokens[p].1, tokens[q].1);
                Ok((SpannedExpr { node: Expr::Return(Box::new(value)), span }, q + 1))
            } else {
                Err(fail(tokens, q, Expected::Semicolon))
            },
            Err(e) => Err(e),
        }
    }
}

fn parse_expression_statement(tokens: &Vec<(Token, Span)>, p: usize) -> (r: Result<
    (SpannedExpr, usize),
    ParseError,
>)
    ensures
        agrees(r, grammar::parse_expression_statement(tokens_view(tokens@), p as int)),
        r matches Ok((_, q)) ==> p < q <= tokens.len(),
    decreases tokens.len() - p, 10nat,
{
    match parse_expr(tokens, p) {
        Ok((value, q)) => if at(tokens, q, &Token::Semicolon) {
            Ok((value, q + 1))
        } else {
            Err(fail(tokens, q, Expected::Semicolon))
        },
        Err(e) => Err(e),
    }
}

/// Parses the statement that starts at position `p`.
pub fn parse_statement(tokens: &Vec<(Token, Span)>, p: usize) -> (r: Result<
    (SpannedExpr, usize),
    ParseError,
>)
    ensures
        agrees(r, grammar::parse_statement(tokens_view(tokens@), p as int)),
        r matches Ok((_, q)) ==> p < q <= tokens.len(),
    decreases tokens.len() - p, 13nat,
{
    if p >= tokens.len() {
        return Err(fail(tokens, p, Expected::Expression));
    }
    match &tokens[p].0 {
        Token::Let => parse_let(tokens, p),
        Token::Fn => parse_function(tokens, p),
        Token::Loop => match parse_block(tokens, p + 1) {
            Ok((body, q)) => {
                let span = span_join(tokens[p].1, body.span);
                Ok((SpannedExpr { node: Expr::InfiniteLoop { body: Box::new(body) }, span }, q))
            },
            Err(e) => Err(e),
        },
        Token::For => parse_for(tokens, p),
        Token::If => parse_if(tokens, p),
        Token::Import => parse_import(tokens, p),
        Token::Return => parse_return(tokens, p),
        Token::LBracket => parse_block(tokens, p),
        _ => parse_expression_statement(tokens, p),
    }
}

/// Parses a whole program: statements up to the end of the tokens.
pub fn parse_program(tokens: &Vec<(Token, Span)>) -> (r: Result<Vec<SpannedExpr>, ParseError>)
    ensures
        match r {
            Ok(stmts) => grammar::parse_program(tokens_view(tokens@)) == Ok::<
                Seq<SpannedView>,
                ParseErrorView,
            >(nodes_view(stmts@)),
            Err(e) => grammar::parse_program(tokens_view(tokens@)) == Err::<
                Seq<SpannedView>,
                ParseErrorView,
            >(e@),
        },
{
    let mut stmts: Vec<SpannedExpr> = Vec::new();
    let mut p: usize = 0;
    assert(nodes_view(stmts@) =~= Seq::empty());
    while p < tokens.len()
        invariant
            p <= tokens.len(),
            grammar::parse_program(tokens_view(tokens@)) == grammar::parse_statements(
                tokens_view(tokens@),
                p as int,
                nodes_view(stmts@),
            ),
        decreases tokens.len() - p,
    {
        match parse_statement(tokens, p) {
            Ok((stmt, q)) => {
                stmts = push_node(stmts, stmt);
                p = q;
            },
            Err(e) => {
                return Err(e);
            },
        }
    }
    Ok(stmts)
}

} // verus!
