//! The grammar: a token sequence to a sequence of statements.
//!
//! ```text
//! atom      := Int | Float | String | Identifier | Bool | Null | Break | Continue
//! array     := '[' expr (',' expr)* ','? ']'
//! primary   := atom | array | '(' expr ')'
//! postfix   := primary ( '.' Identifier | '(' (expr (',' expr)*)? ')' | '[' expr ']' )*
//! unary     := '-'* postfix
//! additive  := unary (('+'|'-') unary)*
//! range     := additive ('..' additive)?
//! irange    := range ('..=' range)?
//! expr      := irange ( ('=='|'!='|'<'|'<='|'>'|'>=') irange )*
//! ```
//!
//! Every chain folds to the left, and each node's span runs from the start
//! of its first token to the end of its last. Parsing stops at the first
//! token that does not fit.

use crate::ast::{BinaryOp, ExprView, Span, SpannedView};
use crate::lexer::{Token, TokenView};
use vstd::prelude::*;

verus! {

/// What the parser was looking for when it met a token that does not fit.
#[derive(Clone, Copy, Debug, PartialEq, Eq, Structural)]
pub enum Expected {
    /// The start of an expression.
    Expression,
    /// A name.
    Identifier,
    /// `=`
    Assign,
    /// `;`
    Semicolon,
    /// `(`
    LParen,
    /// `)`
    RParen,
    /// `{`
    LBracket,
    /// `]`
    RSquareBracket,
    /// `,` or `)`
    CommaOrRParen,
    /// `,` or `]`
    CommaOrRSquareBracket,
    /// A statement or `}`
    StatementOrRBracket,
    /// The name of a module: a string or a name.
    ModuleName,
    /// A name or `*`.
    Alias,
}

/// A token that does not fit the grammar. `found` is `None` at the end of
/// the input, and the span is then the empty span after the last token.
#[derive(Debug)]
pub struct ParseError {
    pub expected: Expected,
    pub found: Option<Token>,
    pub span: Span,
}

/// Mirror of `ParseError`.
pub struct ParseErrorView {
    pub expected: Expected,
    pub found: Option<TokenView>,
    pub span: Span,
}

impl View for ParseError {
    type V = ParseErrorView;

    open spec fn view(&self) -> ParseErrorView {
        ParseErrorView {
            expected: self.expected,
            found: match self.found {
                Some(t) => Some(t@),
                None => None,
            },
            span: self.span,
        }
    }
}

/// A token sequence as the grammar sees it.
pub type Tokens = Seq<(TokenView, Span)>;

/// The outcome of parsing one construct: what was parsed and the position
/// of the next token, or the token that does not fit.
pub type Parsed<T> = Result<(T, int), ParseErrorView>;

/// The span at which an error at position `p` is reported.
pub open spec fn span_at(ts: Tokens, p: int) -> Span {
    if 0 <= p < ts.len() {
        ts[p].1
    } else if ts.len() > 0 {
        Span { start: ts[ts.len() - 1].1.end, end: ts[ts.len() - 1].1.end }
    } else {
        Span { start: 0, end: 0 }
    }
}

/// The error of meeting the token at position `p` where `expected` was due.
pub open spec fn mismatch(ts: Tokens, p: int, expected: Expected) -> ParseErrorView {
    ParseErrorView {
        expected,
        found: if 0 <= p < ts.len() {
            Some(ts[p].0)
        } else {
            None
        },
        span: span_at(ts, p),
    }
}

/// Whether `q` is a position after `p` and within the tokens or at their end.
pub open spec fn advance(ts: Tokens, p: int, q: int) -> bool {
    0 <= p < q <= ts.len()
}

/// Whether the token at position `p` is `t`.
pub open spec fn is_at(ts: Tokens, p: int, t: TokenView) -> bool {
    0 <= p < ts.len() && ts[p].0 == t
}

/// The span from the start of `a` to the end of `b`.
pub open spec fn join(a: Span, b: Span) -> Span {
    Span { start: a.start, end: b.end }
}

/// The binary operator that a token writes, if it is a comparison.
pub open spec fn comparison_of(t: TokenView) -> Option<BinaryOp> {
    match t {
        TokenView::IsEqual => Some(BinaryOp::Equal),
        TokenView::IsUnequal => Some(BinaryOp::NotEqual),
        TokenView::LessThan => Some(BinaryOp::LessThan),
        TokenView::LessThanOrEqual => Some(BinaryOp::LessThanOrEqual),
        TokenView::GreaterThan => Some(BinaryOp::GreaterThan),
        TokenView::GreaterThanOrEqual => Some(BinaryOp::GreaterThanOrEqual),
        _ => None,
    }
}

/// The binary operator that a token writes, if it is `+` or `-`.
pub open spec fn additive_of(t: TokenView) -> Option<BinaryOp> {
    match t {
        TokenView::Plus => Some(BinaryOp::Add),
        TokenView::Minus => Some(BinaryOp::Sub),
        _ => None,
    }
}

/// The node of a token that is an expression by itself.
pub open spec fn atom_of(t: TokenView) -> Option<ExprView> {
    match t {
        TokenView::Integer(n) => Some(ExprView::Int(n)),
        TokenView::Float(s) => Some(ExprView::FloatLiteral(s)),
        TokenView::String(s) => Some(ExprView::String(s)),
        TokenView::Identifer(s) => Some(ExprView::Identifier(s)),
        TokenView::Boolean(b) => Some(ExprView::Bool(b)),
        TokenView::Null => Some(ExprView::Null),
        TokenView::Break => Some(ExprView::Break),
        TokenView::Continue => Some(ExprView::Continue),
        _ => None,
    }
}

/// The node of `left op right`.
pub open spec fn binary(op: BinaryOp, left: SpannedView, right: SpannedView) -> SpannedView {
    SpannedView {
        node: ExprView::Binary { op, left: Box::new(left), right: Box::new(right) },
        span: join(left.span, right.span),
    }
}

/// The node of the range from `start` to `end`.
pub open spec fn range(start: SpannedView, end: SpannedView, inclusive: bool) -> SpannedView {
    SpannedView {
        node: ExprView::Range { start: Box::new(start), end: Box::new(end), inclusive },
        span: join(start.span, end.span),
    }
}

// ---------------------------------------------------------------------------
// Expressions
// ---------------------------------------------------------------------------

/// `expr`: a chain of comparisons.
///
/// The grammar comes back to this rule from inside parentheses, brackets and
/// argument lists; it is opaque so that proofs unfold it only on demand, by
/// `parse_expr_unfolds`.
#[verifier::opaque]
pub open spec fn parse_expr(ts: Tokens, p: int) -> Parsed<SpannedView>
    decreases ts.len() - p, 9nat,
{
    match parse_inclusive_range(ts, p) {
        Ok((left, q)) => if advance(ts, p, q) {
            comparison_rest(ts, left, q)
        } else {
            Err(mismatch(ts, p, Expected::Expression))
        },
        Err(e) => Err(e),
    }
}

/// What `parse_expr` is by definition.
pub proof fn parse_expr_unfolds(ts: Tokens, p: int)
    ensures
        parse_expr(ts, p) == match parse_inclusive_range(ts, p) {
            Ok((left, q)) => if advance(ts, p, q) {
                comparison_rest(ts, left, q)
            } else {
                Err(mismatch(ts, p, Expected::Expression))
            },
            Err(e) => Err(e),
        },
{
    reveal_with_fuel(parse_expr, 1);
}

/// The rest of a comparison chain whose left part is `left`.
pub open spec fn comparison_rest(ts: Tokens, left: SpannedView, p: int) -> Parsed<SpannedView>
    decreases ts.len() - p, 9nat,
{
    if 0 <= p < ts.len() && comparison_of(ts[p].0) is Some {
        match parse_inclusive_range(ts, p + 1) {
            Ok((right, q)) => if advance(ts, p, q) {
                comparison_rest(ts, binary(comparison_of(ts[p].0)->0, left, right), q)
            } else {
                Err(mismatch(ts, p, Expected::Expression))
            },
            Err(e) => Err(e),
        }
    } else {
        Ok((left, p))
    }
}

/// `irange`: a range, or two of them around `..=`.
pub open spec fn parse_inclusive_range(ts: Tokens, p: int) -> Parsed<SpannedView>
    decreases ts.len() - p, 8nat,
{
    match parse_range(ts, p) {
        Ok((left, q)) => if advance(ts, p, q) && is_at(ts, q, TokenView::InclusiveRange) {
            match parse_range(ts, q + 1) {
                Ok((right, r)) => Ok((range(left, right, true), r)),
                Err(e) => Err(e),
            }
        } else {
            Ok((left, q))
        },
        Err(e) => Err(e),
    }
}

/// `range`: an additive chain, or two of them around `..`.
pub open spec fn parse_range(ts: Tokens, p: int) -> Parsed<SpannedView>
    decreases ts.len() - p, 7nat,
{
    match parse_additive(ts, p) {
        Ok((left, q)) => if advance(ts, p, q) && is_at(ts, q, TokenView::Range) {
            match parse_additive(ts, q + 1) {
                Ok((right, r)) => Ok((range(left, right, false), r)),
                Err(e) => Err(e),
            }
        } else {
            Ok((left, q))
        },
        Err(e) => Err(e),
    }
}

/// `additive`: a chain of `+` and `-`. Opaque; unfolded by
/// `parse_additive_unfolds`.
#[verifier::opaque]
pub open spec fn parse_additive(ts: Tokens, p: int) -> Parsed<SpannedView>
    decreases ts.len() - p, 6nat,
{
    match parse_unary(ts, p) {
        Ok((left, q)) => if advance(ts, p, q) {
            additive_rest(ts, left, q)
        } else {
            Err(mismatch(ts, p, Expected::Expression))
        },
        Err(e) => Err(e),
    }
}

/// What `parse_additive` is by definition.
pub proof fn parse_additive_unfolds(ts: Tokens, p: int)
    ensures
        parse_additive(ts, p) == match parse_unary(ts, p) {
            Ok((left, q)) => if advance(ts, p, q) {
                additive_rest(ts, left, q)
            } else {
                Err(mismatch(ts, p, Expected::Expression))
            },
            Err(e) => Err(e),
        },
{
    reveal_with_fuel(parse_additive, 1);
}

/// The rest of an additive chain whose left part is `left`.
pub open spec fn additive_rest(ts: Tokens, left: SpannedView, p: int) -> Parsed<SpannedView>
    decreases ts.len() - p, 6nat,
{
    if 0 <= p < ts.len() && additive_of(ts[p].0) is Some {
        match parse_unary(ts, p + 1) {
            Ok((right, q)) => if advance(ts, p, q) {
                additive_rest(ts, binary(additive_of(ts[p].0)->0, left, right), q)
            } else {
                Err(mismatch(ts, p, Expected::Expression))
            },
            Err(e) => Err(e),
        }
    } else {
        Ok((left, p))
    }
}

/// `unary`: any number of `-` before a postfix chain.
pub open spec fn parse_unary(ts: Tokens, p: int) -> Parsed<SpannedView>
    decreases ts.len() - p, 5nat,
{
    if is_at(ts, p, TokenView::Minus) {
        match parse_unary(ts, p + 1) {
            Ok((inner, q)) => Ok(
                (
                    SpannedView {
                        node: ExprView::Neg(Box::new(inner)),
                        span: join(ts[p].1, inner.span),
                    },
                    q,
                ),
            ),
            Err(e) => Err(e),
        }
    } else {
        parse_postfix(ts, p)
    }
}

/// `postfix`: a primary followed by any number of property accesses, calls
/// and index accesses.
pub open spec fn parse_postfix(ts: Tokens, p: int) -> Parsed<SpannedView>
    decreases ts.len() - p, 4nat,
{
    match parse_primary(ts, p) {
        Ok((left, q)) => if advance(ts, p, q) {
            postfix_rest(ts, left, q)
        } else {
            Err(mismatch(ts, p, Expected::Expression))
        },
        Err(e) => Err(e),
    }
}

/// The rest of a postfix chain whose left part is `left`.
pub open spec fn postfix_rest(ts: Tokens, left: SpannedView, p: int) -> Parsed<SpannedView>
    decreases ts.len() - p, 4nat,
{
    if is_at(ts, p, TokenView::Dot) {
        if 0 <= p + 1 < ts.len() && ts[p + 1].0 is Identifer {
            postfix_rest(
                ts,
                SpannedView {
                    node: ExprView::PropertyAccess {
                        object: Box::new(left),
                        property: ts[p + 1].0->Identifer_0,
                    },
                    span: join(left.span, ts[p + 1].1),
                },
                p + 2,
            )
        } else {
            Err(mismatch(ts, p + 1, Expected::Identifier))
        }
    } else if is_at(ts, p, TokenView::LParen) {
        match parse_arguments(ts, p + 1, Seq::empty()) {
            Ok((args, q)) => if advance(ts, p + 1, q) {
                postfix_rest(
                    ts,
                    SpannedView {
                        node: ExprView::Call { callee: Box::new(left), args },
                        span: join(left.span, ts[q - 1].1),
                    },
                    q,
                )
            } else {
                Err(mismatch(ts, p, Expected::Expression))
            },
            Err(e) => Err(e),
        }
    } else if is_at(ts, p, TokenView::LSquareBracket) {
        match parse_expr(ts, p + 1) {
            Ok((index, q)) => if advance(ts, p, q) && is_at(ts, q, TokenView::RSquareBracket) {
                postfix_rest(
                    ts,
                    SpannedView {
                        node: ExprView::IndexAccess { object: Box::new(left), index: Box::new(index) },
                        span: join(left.span, ts[q].1),
                    },
                    q + 1,
                )
            } else {
                Err(mismatch(ts, q, Expected::RSquareBracket))
            },
            Err(e) => Err(e),
        }
    } else {
        Ok((left, p))
    }
}

/// The arguments of a call after `done`, up to and including the closing
/// parenthesis; `p` is where the next argument would start.
pub open spec fn parse_arguments(ts: Tokens, p: int, done: Seq<SpannedView>) -> Parsed<
    Seq<SpannedView>,
>
    decreases ts.len() - p, 10nat,
{
    if done.len() == 0 && is_at(ts, p, TokenView::RParen) {
        Ok((done, p + 1))
    } else {
        match parse_expr(ts, p) {
            Ok((arg, q)) => if !advance(ts, p, q) {
                Err(mismatch(ts, p, Expected::Expression))
            } else if is_at(ts, q, TokenView::Comma) {
                parse_arguments(ts, q + 1, done.push(arg))
            } else if is_at(ts, q, TokenView::RParen) {
                Ok((done.push(arg), q + 1))
            } else {
                Err(mismatch(ts, q, Expected::CommaOrRParen))
            },
            Err(e) => Err(e),
        }
    }
}

/// The items of an array literal after `done`, up to and including the
/// closing bracket; `p` is where the next item starts.
pub open spec fn parse_items(ts: Tokens, p: int, done: Seq<SpannedView>) -> Parsed<
    Seq<SpannedView>,
>
    decreases ts.len() - p, 10nat,
{
    match parse_expr(ts, p) {
        Ok((item, q)) => if !advance(ts, p, q) {
            Err(mismatch(ts, p, Expected::Expression))
        } else if is_at(ts, q, TokenView::Comma) {
            if is_at(ts, q + 1, TokenView::RSquareBracket) {
                Ok((done.push(item), q + 2))
            } else {
                parse_items(ts, q + 1, done.push(item))
            }
        } else if is_at(ts, q, TokenView::RSquareBracket) {
            Ok((done.push(item), q + 1))
        } else {
            Err(mismatch(ts, q, Expected::CommaOrRSquareBracket))
        },
        Err(e) => Err(e),
    }
}

/// `primary`: an atom, an array literal, or an expression in parentheses.
pub open spec fn parse_primary(ts: Tokens, p: int) -> Parsed<SpannedView>
    decreases ts.len() - p, 3nat,
{
    if p < 0 || p >= ts.len() {
        Err(mismatch(ts, p, Expected::Expression))
    } else if atom_of(ts[p].0) is Some {
        Ok((SpannedView { node: atom_of(ts[p].0)->0, span: ts[p].1 }, p + 1))
    } else if ts[p].0 is LSquareBracket {
        match parse_items(ts, p + 1, Seq::empty()) {
            Ok((items, q)) => if advance(ts, p, q) {
                Ok((SpannedView { node: ExprView::Array(items), span: join(ts[p].1, ts[q - 1].1) }, q))
            } else {
                Err(mismatch(ts, p, Expected::Expression))
            },
            Err(e) => Err(e),
        }
    } else if ts[p].0 is LParen {
        match parse_expr(ts, p + 1) {
            Ok((inner, q)) => if is_at(ts, q, TokenView::RParen) {
                Ok((SpannedView { node: inner.node, span: join(ts[p].1, ts[q].1) }, q + 1))
            } else {
                Err(mismatch(ts, q, Expected::RParen))
            },
            Err(e) => Err(e),
        }
    } else {
        Err(mismatch(ts, p, Expected::Expression))
    }
}

// ---------------------------------------------------------------------------
// Statements
// ---------------------------------------------------------------------------

/// The parameter names of a function after `done`, up to and including the
/// closing parenthesis.
pub open spec fn parse_parameters(ts: Tokens, p: int, done: Seq<Seq<char>>) -> Parsed<
    Seq<Seq<char>>,
>
    decreases ts.len() - p,
{
    if done.len() == 0 && is_at(ts, p, TokenView::RParen) {
        Ok((done, p + 1))
    } else if 0 <= p < ts.len() && ts[p].0 is Identifer {
        let name = ts[p].0->Identifer_0;
        if is_at(ts, p + 1, TokenView::Comma) {
            parse_parameters(ts, p + 2, done.push(name))
        } else if is_at(ts, p + 1, TokenView::RParen) {
            Ok((done.push(name), p + 2))
        } else {
            Err(mismatch(ts, p + 1, Expected::CommaOrRParen))
        }
    } else {
        Err(mismatch(ts, p, Expected::Identifier))
    }
}

/// A block: `{`, statements, `}`. Opaque; unfolded by `parse_block_unfolds`.
#[verifier::opaque]
pub open spec fn parse_block(ts: Tokens, p: int) -> Parsed<SpannedView>
    decreases ts.len() - p, 10nat,
{
    if is_at(ts, p, TokenView::LBracket) {
        match parse_block_rest(ts, p + 1, Seq::empty()) {
            Ok((stmts, q)) => if advance(ts, p, q) {
                Ok((SpannedView { node: ExprView::Block(stmts), span: join(ts[p].1, ts[q - 1].1) }, q))
            } else {
                Err(mismatch(ts, p, Expected::LBracket))
            },
            Err(e) => Err(e),
        }
    } else {
        Err(mismatch(ts, p, Expected::LBracket))
    }
}

/// What `parse_block` is by definition.
pub proof fn parse_block_unfolds(ts: Tokens, p: int)
    ensures
        parse_block(ts, p) == if is_at(ts, p, TokenView::LBracket) {
            match parse_block_rest(ts, p + 1, Seq::empty()) {
                Ok((stmts, q)) => if advance(ts, p, q) {
                    Ok(
                        (
                            SpannedView {
                                node: ExprView::Block(stmts),
                                span: join(ts[p].1, ts[q - 1].1),
                            },
                            q,
                        ),
                    )
                } else {
                    Err(mismatch(ts, p, Expected::LBracket))
                },
                Err(e) => Err(e),
            }
        } else {
            Err(mismatch(ts, p, Expected::LBracket))
        },
{
    reveal_with_fuel(parse_block, 1);
}

/// The statements of a block after `done`, up to and including the closing
/// brace.
pub open spec fn parse_block_rest(ts: Tokens, p: int, done: Seq<SpannedView>) -> Parsed<
    Seq<SpannedView>,
>
    decreases ts.len() - p, 14nat,
{
    if is_at(ts, p, TokenView::RBracket) {
        Ok((done, p + 1))
    } else if p < 0 || p >= ts.len() {
        Err(mismatch(ts, p, Expected::StatementOrRBracket))
    } else {
        match parse_statement(ts, p) {
            Ok((stmt, q)) => if advance(ts, p, q) {
                parse_block_rest(ts, q, done.push(stmt))
            } else {
                Err(mismatch(ts, p, Expected::StatementOrRBracket))
            },
            Err(e) => Err(e),
        }
    }
}

/// The statement `let NAME = expr;` that starts at `p`.
pub open spec fn parse_let(ts: Tokens, p: int) -> Parsed<SpannedView>
    decreases ts.len() - p, 10nat,
{
    if !(0 <= p && p + 1 < ts.len() && ts[p + 1].0 is Identifer) {
        Err(mismatch(ts, p + 1, Expected::Identifier))
    } else if !is_at(ts, p + 2, TokenView::Assign) {
        Err(mismatch(ts, p + 2, Expected::Assign))
    } else {
        match parse_expr(ts, p + 3) {
            Ok((value, q)) => if is_at(ts, q, TokenView::Semicolon) {
                Ok(
                    (
                        SpannedView {
                            node: ExprView::Let { name: ts[p + 1].0->Identifer_0, value: Box::new(value) },
                            span: join(ts[p].1, ts[q].1),
                        },
                        q + 1,
                    ),
                )
            } else {
                Err(mismatch(ts, q, Expected::Semicolon))
            },
            Err(e) => Err(e),
        }
    }
}

/// The statement `fn NAME(params) { block }` that starts at `p`.
pub open spec fn parse_function(ts: Tokens, p: int) -> Parsed<SpannedView>
    decreases ts.len() - p, 11nat,
{
    if !(0 <= p && p + 1 < ts.len() && ts[p + 1].0 is Identifer) {
        Err(mismatch(ts, p + 1, Expected::Identifier))
    } else if !is_at(ts, p + 2, TokenView::LParen) {
        Err(mismatch(ts, p + 2, Expected::LParen))
    } else {
        match parse_parameters(ts, p + 3, Seq::empty()) {
            Ok((params, q)) => if !advance(ts, p, q) {
                Err(mismatch(ts, p, Expected::Identifier))
            } else {
                match parse_block(ts, q) {
                    Ok((body, r)) => Ok(
                        (
                            SpannedView {
                                node: ExprView::Function {
                                    name: ts[p + 1].0->Identifer_0,
                                    args: params,
                                    body: Box::new(body),
                                },
                                span: join(ts[p].1, body.span),
                            },
                            r,
                        ),
                    ),
                    Err(e) => Err(e),
                }
            },
            Err(e) => Err(e),
        }
    }
}

/// The statement `for NAME = expr { block }` that starts at `p`.
pub open spec fn parse_for(ts: Tokens, p: int) -> Parsed<SpannedView>
    decreases ts.len() - p, 11nat,
{
    if !(0 <= p && p + 1 < ts.len() && ts[p + 1].0 is Identifer) {
        Err(mismatch(ts, p + 1, Expected::Identifier))
    } else if !is_at(ts, p + 2, TokenView::Assign) {
        Err(mismatch(ts, p + 2, Expected::Assign))
    } else {
        match parse_expr(ts, p + 3) {
            Ok((range, q)) => if !advance(ts, p, q) {
                Err(mismatch(ts, p, Expected::Expression))
            } else {
                match parse_block(ts, q) {
                    Ok((body, r)) => Ok(
                        (
                            SpannedView {
                                node: ExprView::ForLoop {
                                    iterator_name: ts[p + 1].0->Identifer_0,
                                    iterator_range: Box::new(range),
                                    body: Box::new(body),
                                },
                                span: join(ts[p].1, body.span),
                            },
                            r,
                        ),
                    ),
                    Err(e) => Err(e),
                }
            },
            Err(e) => Err(e),
        }
    }
}

/// The statement `if expr { block } (else { block })?` that starts at `p`.
pub open spec fn parse_if(ts: Tokens, p: int) -> Parsed<SpannedView>
    decreases ts.len() - p, 11nat,
{
    if p < 0 || p >= ts.len() {
        Err(mismatch(ts, p, Expected::Expression))
    } else {
        match parse_expr(ts, p + 1) {
            Ok((condition, q)) => if !advance(ts, p, q) {
                Err(mismatch(ts, p, Expected::Expression))
            } else {
                match parse_block(ts, q) {
                    Ok((then_branch, r)) => if advance(ts, q, r) && is_at(ts, r, TokenView::Else) {
                        match parse_block(ts, r + 1) {
                            Ok((else_branch, s)) => Ok(
                                (
                                    SpannedView {
                                        node: ExprView::If {
                                            condition: Box::new(condition),
                                            then_branch: Box::new(then_branch),
                                            else_branch: Some(Box::new(else_branch)),
                                        },
                                        span: join(ts[p].1, else_branch.span),
                                    },
                                    s,
                                ),
                            ),
                            Err(e) => Err(e),
                        }
                    } else {
                        Ok(
                            (
                                SpannedView {
                                    node: ExprView::If {
                                        condition: Box::new(condition),
                                        then_branch: Box::new(then_branch),
                                        else_branch: None,
                                    },
                                    span: join(ts[p].1, then_branch.span),
                                },
                                r,
                            ),
                        )
                    },
                    Err(e) => Err(e),
                }
            },
            Err(e) => Err(e),
        }
    }
}

/// The name that an import statement gives for its module.
pub open spec fn module_name_of(t: TokenView) -> Option<Seq<char>> {
    match t {
        TokenView::String(s) => Some(s),
        TokenView::Identifer(s) => Some(s),
        _ => None,
    }
}

/// The alias that an import statement gives after `as`.
pub open spec fn alias_of(t: TokenView) -> Option<Seq<char>> {
    match t {
        TokenView::Identifer(s) => Some(s),
        TokenView::Star => Some("*"@),
        _ => None,
    }
}

/// The statement `import NAME (as ALIAS)? ;` that starts at `p`.
pub open spec fn parse_import(ts: Tokens, p: int) -> Parsed<SpannedView> {
    if !(0 <= p && p + 1 < ts.len() && module_name_of(ts[p + 1].0) is Some) {
        Err(mismatch(ts, p + 1, Expected::ModuleName))
    } else if is_at(ts, p + 2, TokenView::As) {
        if !(p + 3 < ts.len() && alias_of(ts[p + 3].0) is Some) {
            Err(mismatch(ts, p + 3, Expected::Alias))
        } else if !is_at(ts, p + 4, TokenView::Semicolon) {
            Err(mismatch(ts, p + 4, Expected::Semicolon))
        } else {
            Ok(
                (
                    SpannedView {
                        node: ExprView::Import {
                            name: module_name_of(ts[p + 1].0)->0,
                            import_as: Some(alias_of(ts[p + 3].0)->0),
                        },
                        span: join(ts[p].1, ts[p + 4].1),
                    },
                    p + 5,
                ),
            )
        }
    } else if is_at(ts, p + 2, TokenView::Semicolon) {
        Ok(
            (
                SpannedView {
                    node: ExprView::Import { name: module_name_of(ts[p + 1].0)->0, import_as: None },
                    span: join(ts[p].1, ts[p + 2].1),
                },
                p + 3,
            ),
        )
    } else {
        Err(mismatch(ts, p + 2, Expected::Semicolon))
    }
}

/// The statement `return expr? ;` that starts at `p`. Without an expression
/// the statement returns null.
pub open spec fn parse_return(ts: Tokens, p: int) -> Parsed<SpannedView>
    decreases ts.len() - p, 10nat,
{
    if p < 0 || p >= ts.len() {
        Err(mismatch(ts, p, Expected::Expression))
    } else if is_at(ts, p + 1, TokenView::Semicolon) {
        Ok(
            (
                SpannedView {
                    node: ExprView::Return(
                        Box::new(SpannedView { node: ExprView::Null, span: ts[p + 1].1 }),
                    ),
                    span: join(ts[p].1, ts[p + 1].1),
                },
                p + 2,
            ),
        )
    } else {
        match parse_expr(ts, p + 1) {
            Ok((value, q)) => if is_at(ts, q, TokenView::Semicolon) {
                Ok(
                    (
                        SpannedView {
                            node: ExprView::Return(Box::new(value)),
                            span: join(ts[p].1, ts[q].1),
                        },
                        q + 1,
                    ),
                )
            } else {
                Err(mismatch(ts, q, Expected::Semicolon))
            },
            Err(e) => Err(e),
        }
    }
}

/// The expression statement `expr;` that starts at `p`. The statement is
/// the expression's node; its span does not take in the semicolon.
pub open spec fn parse_expression_statement(ts: Tokens, p: int) -> Parsed<SpannedView>
    decreases ts.len() - p, 10nat,
{
    match parse_expr(ts, p) {
        Ok((value, q)) => if is_at(ts, q, TokenView::Semicolon) {
            Ok((value, q + 1))
        } else {
            Err(mismatch(ts, q, Expected::Semicolon))
        },
        Err(e) => Err(e),
    }
}

/// One statement, for `0 <= p < ts.len()`.
pub open spec fn parse_statement(ts: Tokens, p: int) -> Parsed<SpannedView>
    decreases ts.len() - p, 13nat,
{
    if p < 0 || p >= ts.len() {
        Err(mismatch(ts, p, Expected::Expression))
    } else {
        match ts[p].0 {
            TokenView::Let => parse_let(ts, p),
            TokenView::Fn => parse_function(ts, p),
            TokenView::Loop => match parse_block(ts, p + 1) {
                Ok((body, q)) => Ok(
                    (
                        SpannedView {
                            node: ExprView::InfiniteLoop { body: Box::new(body) },
                            span: join(ts[p].1, body.span),
                        },
                        q,
                    ),
                ),
                Err(e) => Err(e),
            },
            TokenView::For => parse_for(ts, p),
            TokenView::If => parse_if(ts, p),
            TokenView::Import => parse_import(ts, p),
            TokenView::Return => parse_return(ts, p),
            TokenView::LBracket => parse_block(ts, p),
            _ => parse_expression_statement(ts, p),
        }
    }
}

/// The statements of a program from position `p` on, after `done`.
pub open spec fn parse_statements(ts: Tokens, p: int, done: Seq<SpannedView>) -> Result<
    Seq<SpannedView>,
    ParseErrorView,
>
    decreases ts.len() - p,
{
    if p < 0 || p >= ts.len() {
        Ok(done)
    } else {
        match parse_statement(ts, p) {
            Ok((stmt, q)) => if advance(ts, p, q) {
                parse_statements(ts, q, done.push(stmt))
            } else {
                Err(mismatch(ts, p, Expected::Expression))
            },
            Err(e) => Err(e),
        }
    }
}

/// The statements of a program.
pub open spec fn parse_program(ts: Tokens) -> Result<Seq<SpannedView>, ParseErrorView> {
    parse_statements(ts, 0, Seq::empty())
}

} // verus!
