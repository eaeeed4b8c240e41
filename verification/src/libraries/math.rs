//! The package `math`. Integer arithmetic wraps around; arithmetic on
//! floating-point numbers is done by the host.

use crate::ast::{
    bindings_view, nodes_view, Binding, BindingView, Expr, ExprView, InternalFunctionResponse,
    Native, Span, SpannedExpr, SpannedView,
};
use crate::builtins::array::{done, fail, failure, first_span, gives, one_name, span_of_first, two_names, value, NativeResult};
use vstd::prelude::*;

verus! {

/// Whether a value is a number.
pub open spec fn is_number(v: ExprView) -> bool {
    v is Int || v is Float
}

/// The product of two 64-bit integers, wrapped around.
pub open spec fn wrapped_product(a: i64, b: i64) -> i64 {
    vstd::wrapping::i64_specs::wrapping_mul(a, b)
}

/// `base` to the power `n`, each product wrapped around.
pub open spec fn wrapped_power(base: i64, n: nat) -> i64
    decreases n,
{
    if n == 0 {
        1
    } else {
        wrapped_product(wrapped_power(base, (n - 1) as nat), base)
    }
}

/// The exponent that `pow` uses: the low 32 bits of its second argument.
pub open spec fn exponent_of(b: i64) -> nat {
    (b as u32) as nat
}

/// The absolute value of a 64-bit integer; the least integer stays itself.
pub open spec fn wrapped_abs(n: i64) -> i64 {
    if n == i64::MIN {
        n
    } else if n < 0 {
        (-n) as i64
    } else {
        n
    }
}

/// `mul`: the product of two numbers.
pub open spec fn mul_spec(args: Seq<SpannedView>) -> NativeResult {
    if args.len() != 2 {
        failure("mul takes exactly two arguments"@, first_span(args))
    } else {
        match (args[0].node, args[1].node) {
            (ExprView::Int(a), ExprView::Int(b)) => value(ExprView::Int(wrapped_product(a, b))),
            (a, b) => if is_number(a) && is_number(b) {
                failure("needs the host"@, args[0].span)
            } else {
                failure("mul expects number arguments"@, args[0].span)
            },
        }
    }
}

/// `div`: the quotient of two numbers, a floating-point number. Division
/// by the integer zero fails.
pub open spec fn div_spec(args: Seq<SpannedView>) -> NativeResult {
    if args.len() != 2 {
        failure("div takes exactly two arguments"@, first_span(args))
    } else if !(is_number(args[0].node) && is_number(args[1].node)) {
        failure("div expects number arguments"@, args[0].span)
    } else if args[1].node == ExprView::Int(0) {
        failure("division by zero"@, args[1].span)
    } else {
        failure("needs the host"@, args[0].span)
    }
}

/// `abs`: the absolute value of a number.
pub open spec fn abs_spec(args: Seq<SpannedView>) -> NativeResult {
    if args.len() != 1 {
        failure("abs takes exactly one argument"@, first_span(args))
    } else {
        match args[0].node {
            ExprView::Int(n) => value(ExprView::Int(wrapped_abs(n))),
            ExprView::Float(_) => failure("needs the host"@, args[0].span),
            _ => failure("abs expects a number argument"@, args[0].span),
        }
    }
}

/// `pow`: a number to the power of another.
pub open spec fn pow_spec(args: Seq<SpannedView>) -> NativeResult {
    if args.len() != 2 {
        failure("pow takes exactly two arguments"@, first_span(args))
    } else {
        match (args[0].node, args[1].node) {
            (ExprView::Int(a), ExprView::Int(b)) => value(
                ExprView::Int(wrapped_power(a, exponent_of(b))),
            ),
            (a, b) => if is_number(a) && is_number(b) {
                failure("needs the host"@, args[0].span)
            } else {
                failure("pow expects number arguments"@, args[0].span)
            },
        }
    }
}

fn number_check(v: &Expr) -> (r: bool)
    ensures
        r == is_number(v@),
{
    match v {
        Expr::Int(_) => true,
        Expr::Float(_) => true,
        _ => false,
    }
}

/// `mul`: the product of two numbers.
pub fn mul(args: Vec<SpannedExpr>) -> (r: Result<InternalFunctionResponse, (String, Span)>)
    ensures
        gives(r, mul_spec(nodes_view(args@))),
{
    if args.len() != 2 {
        return fail("mul takes exactly two arguments", span_of_first(&args));
    }
    assert(nodes_view(args@)[0] == args@[0]@);
    assert(nodes_view(args@)[1] == args@[1]@);
    match (&args[0].node, &args[1].node) {
        (Expr::Int(a), Expr::Int(b)) => done(Expr::Int(a.wrapping_mul(*b))),
        (a, b) => if number_check(a) && number_check(b) {
            fail("needs the host", args[0].span)
        } else {
            fail("mul expects number arguments", args[0].span)
        },
    }
}

/// `div`: the quotient of two numbers; the library only checks the
/// arguments, the host divides.
pub fn div(args: Vec<SpannedExpr>) -> (r: Result<InternalFunctionResponse, (String, Span)>)
    ensures
        gives(r, div_spec(nodes_view(args@))),
{
    if args.len() != 2 {
        return fail("div takes exactly two arguments", span_of_first(&args));
    }
    assert(nodes_view(args@)[0] == args@[0]@);
    assert(nodes_view(args@)[1] == args@[1]@);
    if !(number_check(&args[0].node) && number_check(&args[1].node)) {
        return fail("div expects number arguments", args[0].span);
    }
    match &args[1].node {
        Expr::Int(b) => if *b == 0 {
            return fail("division by zero", args[1].span);
        },
        _ => {},
    }
    fail("needs the host", args[0].span)
}

/// `abs`: the absolute value of a number.
pub fn abs(args: Vec<SpannedExpr>) -> (r: Result<InternalFunctionResponse, (String, Span)>)
    ensures
        gives(r, abs_spec(nodes_view(args@))),
{
    if args.len() != 1 {
        return fail("abs takes exactly one argument", span_of_first(&args));
    }
    assert(nodes_view(args@)[0] == args@[0]@);
    match &args[0].node {
        Expr::Int(n) => {
            let a: i64 = if *n == i64::MIN {
                *n
            } else if *n < 0 {
                -*n
            } else {
                *n
            };
            done(Expr::Int(a))
        },
        Expr::Float(_) => fail("needs the host", args[0].span),
        _ => fail("abs expects a number argument", args[0].span),
    }
}

fn power(base: i64, n: u32) -> (r: i64)
    ensures
        r == wrapped_power(base, n as nat),
{
    let mut acc: i64 = 1;
    let mut i: u32 = 0;
    while i < n
        invariant
            i <= n,
            acc == wrapped_power(base, i as nat),
        decreases n - i,
    {
        acc = acc.wrapping_mul(base);
        i += 1;
    }
    acc
}

/// `pow`: a number to the power of another.
pub fn pow(args: Vec<SpannedExpr>) -> (r: Result<InternalFunctionResponse, (String, Span)>)
    ensures
        gives(r, pow_spec(nodes_view(args@))),
{
    if args.len() != 2 {
        return fail("pow takes exactly two arguments", span_of_first(&args));
    }
    assert(nodes_view(args@)[0] == args@[0]@);
    assert(nodes_view(args@)[1] == args@[1]@);
    match (&args[0].node, &args[1].node) {
        (Expr::Int(a), Expr::Int(b)) => done(Expr::Int(power(*a, *b as u32))),
        (a, b) => if number_check(a) && number_check(b) {
            fail("needs the host", args[0].span)
        } else {
            fail("pow expects number arguments", args[0].span)
        },
    }
}

/// A native function as a symbol of a package.
pub open spec fn symbol(name: Seq<char>, formal: Seq<Seq<char>>, func: Native) -> BindingView {
    BindingView { name, value: ExprView::InternalFunction { name, args: formal, func } }
}

/// A native function as a symbol of a package.
pub fn make_symbol(name: &str, formal: Vec<String>, func: Native) -> (r: Binding)
    ensures
        r@ == symbol(name@, crate::ast::names_view(formal@), func),
{
    Binding {
        name: String::from_str(name),
        value: Expr::InternalFunction { name: String::from_str(name), args: formal, func },
    }
}

/// A package with the given symbols.
pub fn make_module(symbols: Vec<Binding>) -> (r: Expr)
    ensures
        r@ == (ExprView::Module { symbols: bindings_view(symbols@) }),
{
    Expr::Module { symbols }
}

/// The symbols of the package `math`.
pub open spec fn symbols() -> Seq<BindingView> {
    seq![
        symbol("mul"@, seq!["a"@, "b"@], Native::MathMul),
        symbol("div"@, seq!["a"@, "b"@], Native::MathDiv),
        symbol("abs"@, seq!["x"@], Native::MathAbs),
        symbol("pow"@, seq!["base"@, "exponent"@], Native::MathPow),
    ]
}

/// The package `math`.
pub fn get_object() -> (r: Expr)
    ensures
        r@ == (ExprView::Module { symbols: symbols() }),
{
    let mut list: Vec<Binding> = Vec::new();
    list.push(make_symbol("mul", two_names("a", "b"), Native::MathMul));
    list.push(make_symbol("div", two_names("a", "b"), Native::MathDiv));
    list.push(make_symbol("abs", one_name("x"), Native::MathAbs));
    list.push(make_symbol("pow", two_names("base", "exponent"), Native::MathPow));
    assert(bindings_view(list@) =~= symbols());
    make_module(list)
}

} // verus!
