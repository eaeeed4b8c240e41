//! The conversion functions `str`, `int`, `float` and `bool`, and the
//! seeding of an environment with the built-in functions.
//!
//! Floating-point numbers are converted by the host: on an argument whose
//! conversion needs one, these functions fail with the message
//! `needs the host`, and the evaluator asks the host instead of calling them.

use crate::ast::{
    nodes_view, Expr, ExprView, InternalFunctionResponse, Native, Span, SpannedExpr, SpannedView,
};
use crate::builtins::array::{done, fail, failure, first_span, gives, one_name, span_of_first, value, NativeResult};
use crate::environment::{bind, Bindings, Environment};
use crate::text::{int_error_message, int_error_text, int_text, int_to_text, joined, parse_int, read_int, same_text};
use vstd::prelude::*;

verus! {

/// `str`: the text of a value.
pub open spec fn str_spec(args: Seq<SpannedView>) -> NativeResult {
    if args.len() == 0 {
        failure("str expects 1 argument"@, first_span(args))
    } else {
        match args[0].node {
            ExprView::Int(n) => value(ExprView::String(int_text(n as int))),
            ExprView::String(s) => value(ExprView::String(s)),
            ExprView::Bool(b) => value(
                ExprView::String(
                    if b {
                        "true"@
                    } else {
                        "false"@
                    },
                ),
            ),
            ExprView::Null => value(ExprView::String("null"@)),
            ExprView::Float(_) => failure("needs the host"@, args[0].span),
            _ => failure("Cannot convert value to string"@, args[0].span),
        }
    }
}

/// `int`: the integer of a value.
pub open spec fn int_spec(args: Seq<SpannedView>) -> NativeResult {
    if args.len() == 0 {
        failure("int expects 1 argument"@, first_span(args))
    } else {
        match args[0].node {
            ExprView::Int(n) => value(ExprView::Int(n)),
            ExprView::String(s) => match read_int(s) {
                Ok(n) => value(ExprView::Int(n)),
                Err(e) => failure(
                    "Could not convert string to int: "@ + int_error_text(e),
                    args[0].span,
                ),
            },
            ExprView::Bool(b) => value(
                ExprView::Int(
                    if b {
                        1
                    } else {
                        0
                    },
                ),
            ),
            ExprView::Float(_) => failure("needs the host"@, args[0].span),
            _ => failure("Cannot convert value to int"@, args[0].span),
        }
    }
}

/// `float`: the floating-point number of a value.
pub open spec fn float_spec(args: Seq<SpannedView>) -> NativeResult {
    if args.len() == 0 {
        failure("float expects 1 argument"@, first_span(args))
    } else {
        match args[0].node {
            ExprView::Float(f) => value(ExprView::Float(f)),
            ExprView::Int(_) => failure("needs the host"@, args[0].span),
            ExprView::String(_) => failure("needs the host"@, args[0].span),
            ExprView::Bool(_) => failure("needs the host"@, args[0].span),
            _ => failure("Cannot convert value to float"@, args[0].span),
        }
    }
}

/// `bool`: the truth of a value.
pub open spec fn bool_spec(args: Seq<SpannedView>) -> NativeResult {
    if args.len() == 0 {
        failure("bool expects 1 argument"@, first_span(args))
    } else {
        match args[0].node {
            ExprView::Int(n) => value(ExprView::Bool(n != 0)),
            ExprView::String(s) => value(ExprView::Bool(s == "true"@)),
            ExprView::Bool(b) => value(ExprView::Bool(b)),
            ExprView::Null => value(ExprView::Bool(false)),
            ExprView::Float(_) => failure("needs the host"@, args[0].span),
            _ => failure("Cannot convert value to bool"@, args[0].span),
        }
    }
}

/// `str`: the text of a value.
pub fn str(args: Vec<SpannedExpr>) -> (r: Result<InternalFunctionResponse, (String, Span)>)
    ensures
        gives(r, str_spec(nodes_view(args@))),
{
    if args.len() == 0 {
        return fail("str expects 1 argument", span_of_first(&args));
    }
    assert(nodes_view(args@)[0] == args@[0]@);
    let span = args[0].span;
    match &args[0].node {
        Expr::Int(n) => done(Expr::String(int_to_text(*n))),
        Expr::String(s) => done(Expr::String(s.clone())),
        Expr::Bool(b) => if *b {
            done(Expr::String(String::from_str("true")))
        } else {
            done(Expr::String(String::from_str("false")))
        },
        Expr::Null => done(Expr::String(String::from_str("null"))),
        Expr::Float(_) => fail("needs the host", span),
        _ => fail("Cannot convert value to string", span),
    }
}

/// `int`: the integer of a value.
pub fn integer(args: Vec<SpannedExpr>) -> (r: Result<InternalFunctionResponse, (String, Span)>)
    ensures
        gives(r, int_spec(nodes_view(args@))),
{
    if args.len() == 0 {
        return fail("int expects 1 argument", span_of_first(&args));
    }
    assert(nodes_view(args@)[0] == args@[0]@);
    let span = args[0].span;
    match &args[0].node {
        Expr::Int(n) => done(Expr::Int(*n)),
        Expr::String(s) => match parse_int(s.as_str()) {
            Ok(n) => done(Expr::Int(n)),
            Err(e) => {
                let text = joined("Could not convert string to int: ", int_error_message(e));
                Err((text, span))
            },
        },
        Expr::Bool(b) => if *b {
            done(Expr::Int(1))
        } else {
            done(Expr::Int(0))
        },
        Expr::Float(_) => fail("needs the host", span),
        _ => fail("Cannot convert value to int", span),
    }
}

/// `float`: the floating-point number of a value.
pub fn float(args: Vec<SpannedExpr>) -> (r: Result<InternalFunctionResponse, (String, Span)>)
    ensures
        gives(r, float_spec(nodes_view(args@))),
{
    if args.len() == 0 {
        return fail("float expects 1 argument", span_of_first(&args));
    }
    assert(nodes_view(args@)[0] == args@[0]@);
    let span = args[0].span;
    match &args[0].node {
        Expr::Float(f) => done(Expr::Float(*f)),
        Expr::Int(_) => fail("needs the host", span),
        Expr::String(_) => fail("needs the host", span),
        Expr::Bool(_) => fail("needs the host", span),
        _ => fail("Cannot convert value to float", span),
    }
}

/// `bool`: the truth of a value.
pub fn bool(args: Vec<SpannedExpr>) -> (r: Result<InternalFunctionResponse, (String, Span)>)
    ensures
        gives(r, bool_spec(nodes_view(args@))),
{
    if args.len() == 0 {
        return fail("bool expects 1 argument", span_of_first(&args));
    }
    assert(nodes_view(args@)[0] == args@[0]@);
    let span = args[0].span;
    match &args[0].node {
        Expr::Int(n) => done(Expr::Bool(*n != 0)),
        Expr::String(s) => done(Expr::Bool(same_text(s.as_str(), "true"))),
        Expr::Bool(b) => done(Expr::Bool(*b)),
        Expr::Null => done(Expr::Bool(false)),
        Expr::Float(_) => fail("needs the host", span),
        _ => fail("Cannot convert value to bool", span),
    }
}

/// The line that `print` writes for `args`: their texts, one after the
/// other, and a line feed. `None` where one of them is not plain; the host
/// writes such a line.
pub open spec fn print_spec(args: Seq<SpannedView>) -> Option<Seq<char>> {
    match crate::values::plain_texts(args, args.len() as int) {
        Some(text) => Some(text + "\n"@),
        None => None,
    }
}

/// The line that `print` writes for `args`.
pub fn print(args: &Vec<SpannedExpr>) -> (r: Option<String>)
    ensures
        match r {
            Some(line) => print_spec(nodes_view(args@)) == Some(line@),
            None => print_spec(nodes_view(args@)) is None,
        },
{
    match crate::values::plain_line(args) {
        Some(text) => Some(joined(text.as_str(), "\n")),
        None => None,
    }
}

/// The built-in function `name` with the formal parameters `formal`.
pub open spec fn builtin(name: Seq<char>, formal: Seq<char>, func: Native) -> ExprView {
    ExprView::InternalFunction { name, args: seq![formal], func }
}

/// The environment after the built-in functions are bound.
pub open spec fn filled(env: Bindings) -> Bindings {
    let e1 = bind(env, "print"@, builtin("print"@, "__args__"@, Native::Print));
    let e2 = bind(e1, "input"@, builtin("input"@, "__args__"@, Native::Input));
    let e3 = bind(e2, "exit"@, builtin("exit"@, "__args__"@, Native::Exit));
    let e4 = bind(e3, "str"@, builtin("str"@, "value"@, Native::Str));
    let e5 = bind(e4, "int"@, builtin("int"@, "value"@, Native::Int));
    let e6 = bind(e5, "float"@, builtin("float"@, "value"@, Native::Float));
    bind(e6, "bool"@, builtin("bool"@, "value"@, Native::Bool))
}

fn make_builtin(name: &str, formal: &str, func: Native) -> (r: Expr)
    ensures
        r@ == builtin(name@, formal@, func),
{
    Expr::InternalFunction { name: String::from_str(name), args: one_name(formal), func }
}

/// Binds the built-in functions `print`, `input`, `exit`, `str`, `int`,
/// `float` and `bool`.
pub fn fill_context(context: &mut Environment)
    ensures
        final(context)@ == filled(old(context)@),
        old(context).wf() ==> final(context).wf(),
{
    context.insert(String::from_str("print"), make_builtin("print", "__args__", Native::Print));
    context.insert(String::from_str("input"), make_builtin("input", "__args__", Native::Input));
    context.insert(String::from_str("exit"), make_builtin("exit", "__args__", Native::Exit));
    context.insert(String::from_str("str"), make_builtin("str", "value", Native::Str));
    context.insert(String::from_str("int"), make_builtin("int", "value", Native::Int));
    context.insert(String::from_str("float"), make_builtin("float", "value", Native::Float));
    context.insert(String::from_str("bool"), make_builtin("bool", "value", Native::Bool));
}

} // verus!
