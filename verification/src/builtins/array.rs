//! The methods of arrays. A method that changes the array hands the new
//! array back as the receiver's replacement.

use crate::ast::{
    copy_nodes, names_view, nodes_view, Expr, ExprView, InternalFunctionResponse, Native,
    ResponseView, Span, SpannedExpr, SpannedView,
};
use crate::text::same_text;
use vstd::prelude::*;

verus! {

/// What a native function returns, in the model.
pub type NativeResult = Result<ResponseView, (Seq<char>, Span)>;

/// Whether an executable result is the result `s` of the model.
pub open spec fn gives(
    r: Result<InternalFunctionResponse, (String, Span)>,
    s: NativeResult,
) -> bool {
    match r {
        Ok(response) => s == Ok::<ResponseView, (Seq<char>, Span)>(response@),
        Err(e) => s == Err::<ResponseView, (Seq<char>, Span)>((e.0@, e.1)),
    }
}

/// The span of the first argument, or the empty span where there is none.
pub open spec fn first_span(args: Seq<SpannedView>) -> Span {
    if args.len() > 0 {
        args[0].span
    } else {
        Span { start: 0, end: 0 }
    }
}

/// The result that is only a value.
pub open spec fn value(v: ExprView) -> NativeResult {
    Ok(ResponseView { return_value: v, replace_self: None })
}

/// The failure with the message `text` at `span`.
pub open spec fn failure(text: Seq<char>, span: Span) -> NativeResult {
    Err((text, span))
}

/// The span of the first argument, or the empty span where there is none.
pub fn span_of_first(args: &Vec<SpannedExpr>) -> (r: Span)
    ensures
        r == first_span(nodes_view(args@)),
{
    if args.len() > 0 {
        args[0].span
    } else {
        Span { start: 0, end: 0 }
    }
}

/// The result that is only the value `v`.
pub fn done(v: Expr) -> (r: Result<InternalFunctionResponse, (String, Span)>)
    ensures
        gives(r, value(v@)),
{
    Ok(InternalFunctionResponse { return_value: v, replace_self: None })
}

/// The failure with the message `text` at `span`.
pub fn fail(text: &str, span: Span) -> (r: Result<InternalFunctionResponse, (String, Span)>)
    ensures
        gives(r, failure(text@, span)),
{
    Err((String::from_str(text), span))
}

/// `len`: the number of items of the array.
pub open spec fn len_spec(args: Seq<SpannedView>) -> NativeResult {
    if args.len() > 0 && args[0].node is Array {
        value(ExprView::Int(args[0].node->Array_0.len() as i64))
    } else {
        failure("len expects an array"@, first_span(args))
    }
}

/// `clear`: the array becomes empty.
pub open spec fn clear_spec(args: Seq<SpannedView>) -> NativeResult {
    if args.len() > 0 && args[0].node is Array {
        Ok(
            ResponseView {
                return_value: ExprView::Null,
                replace_self: Some(ExprView::Array(Seq::empty())),
            },
        )
    } else {
        failure("clear expects an array"@, first_span(args))
    }
}

/// `push`: the array gets the second argument as its last item.
pub open spec fn push_spec(args: Seq<SpannedView>) -> NativeResult {
    if args.len() > 0 && args[0].node is Array {
        if args.len() < 2 {
            failure("push expects 2 arguments"@, args[0].span)
        } else {
            Ok(
                ResponseView {
                    return_value: ExprView::Null,
                    replace_self: Some(ExprView::Array(args[0].node->Array_0.push(args[1]))),
                },
            )
        }
    } else {
        failure("push expects an array"@, first_span(args))
    }
}

/// `pop`: the array loses its last item, which is the result.
pub open spec fn pop_spec(args: Seq<SpannedView>) -> NativeResult {
    if args.len() > 0 && args[0].node is Array {
        let items = args[0].node->Array_0;
        if items.len() == 0 {
            failure("Cannot pop from an empty array"@, args[0].span)
        } else {
            Ok(
                ResponseView {
                    return_value: items[items.len() - 1].node,
                    replace_self: Some(ExprView::Array(items.drop_last())),
                },
            )
        }
    } else {
        failure("pop expects an array"@, first_span(args))
    }
}

/// `len`: the number of items of the array.
pub fn len(args: Vec<SpannedExpr>) -> (r: Result<InternalFunctionResponse, (String, Span)>)
    ensures
        gives(r, len_spec(nodes_view(args@))),
{
    if args.len() > 0 {
        match &args[0].node {
            Expr::Array(items) => {
                let n = items.len();
                assert(nodes_view(args@)[0].node == args@[0].node@);
                return done(Expr::Int(n as i64));
            },
            _ => {},
        }
    }
    fail("len expects an array", span_of_first(&args))
}

/// `clear`: the array becomes empty.
pub fn clear(args: Vec<SpannedExpr>) -> (r: Result<InternalFunctionResponse, (String, Span)>)
    ensures
        gives(r, clear_spec(nodes_view(args@))),
{
    if args.len() > 0 {
        match &args[0].node {
            Expr::Array(_) => {
                assert(nodes_view(args@)[0].node == args@[0].node@);
                let empty: Vec<SpannedExpr> = Vec::new();
                assert(nodes_view(empty@) =~= Seq::<SpannedView>::empty());
                return Ok(
                    InternalFunctionResponse {
                        return_value: Expr::Null,
                        replace_self: Some(Expr::Array(empty)),
                    },
                );
            },
            _ => {},
        }
    }
    fail("clear expects an array", span_of_first(&args))
}

/// `push`: the array gets the second argument as its last item.
pub fn push(args: Vec<SpannedExpr>) -> (r: Result<InternalFunctionResponse, (String, Span)>)
    ensures
        gives(r, push_spec(nodes_view(args@))),
{
    if args.len() > 0 {
        match &args[0].node {
            Expr::Array(items) => {
                assert(nodes_view(args@)[0].node == args@[0].node@);
                if args.len() < 2 {
                    return fail("push expects 2 arguments", args[0].span);
                }
                let mut new_array = copy_nodes(items);
                let ghost before = nodes_view(new_array@);
                new_array.push(args[1].copy());
                assert(nodes_view(args@)[1] == args@[1]@);
                assert(nodes_view(new_array@) =~= before.push(args@[1]@));
                return Ok(
                    InternalFunctionResponse {
                        return_value: Expr::Null,
                        replace_self: Some(Expr::Array(new_array)),
                    },
                );
            },
            _ => {},
        }
    }
    fail("push expects an array", span_of_first(&args))
}

/// `pop`: the array loses its last item, which is the result.
pub fn pop(args: Vec<SpannedExpr>) -> (r: Result<InternalFunctionResponse, (String, Span)>)
    ensures
        gives(r, pop_spec(nodes_view(args@))),
{
    if args.len() > 0 {
        match &args[0].node {
            Expr::Array(items) => {
                assert(nodes_view(args@)[0].node == args@[0].node@);
                if items.len() == 0 {
                    return fail("Cannot pop from an empty array", args[0].span);
                }
                let mut new_array = copy_nodes(items);
                let ghost before = nodes_view(new_array@);
                let popped = new_array.pop().unwrap();
                assert(nodes_view(new_array@) =~= before.drop_last());
                assert(popped@ == before[before.len() - 1]);
                return Ok(
                    InternalFunctionResponse {
                        return_value: popped.node,
                        replace_self: Some(Expr::Array(new_array)),
                    },
                );
            },
            _ => {},
        }
    }
    fail("pop expects an array", span_of_first(&args))
}

/// The method of arrays that is called `name`, if there is one.
pub open spec fn method(name: Seq<char>) -> Option<ExprView> {
    if name == "len"@ {
        Some(ExprView::InternalFunction { name, args: seq!["self"@], func: Native::ArrayLen })
    } else if name == "clear"@ {
        Some(ExprView::InternalFunction { name, args: seq!["self"@], func: Native::ArrayClear })
    } else if name == "push"@ {
        Some(
            ExprView::InternalFunction {
                name,
                args: seq!["self"@, "value"@],
                func: Native::ArrayPush,
            },
        )
    } else if name == "pop"@ {
        Some(ExprView::InternalFunction { name, args: seq!["self"@], func: Native::ArrayPop })
    } else {
        None
    }
}

/// A list of one name.
pub fn one_name(a: &str) -> (r: Vec<String>)
    ensures
        names_view(r@) == seq![a@],
{
    let mut v: Vec<String> = Vec::new();
    v.push(String::from_str(a));
    assert(names_view(v@) =~= seq![a@]);
    v
}

/// A list of two names.
pub fn two_names(a: &str, b: &str) -> (r: Vec<String>)
    ensures
        names_view(r@) == seq![a@, b@],
{
    let mut v: Vec<String> = Vec::new();
    v.push(String::from_str(a));
    v.push(String::from_str(b));
    assert(names_view(v@) =~= seq![a@, b@]);
    v
}

/// A list of three names.
pub fn three_names(a: &str, b: &str, c: &str) -> (r: Vec<String>)
    ensures
        names_view(r@) == seq![a@, b@, c@],
{
    let mut v: Vec<String> = Vec::new();
    v.push(String::from_str(a));
    v.push(String::from_str(b));
    v.push(String::from_str(c));
    assert(names_view(v@) =~= seq![a@, b@, c@]);
    v
}

/// The method of arrays that is called `name`, if there is one.
pub fn get_fn(name: &str) -> (r: Option<Expr>)
    ensures
        match r {
            Some(f) => method(name@) == Some(f@),
            None => method(name@) is None,
        },
{
    if same_text(name, "len") {
        Some(
            Expr::InternalFunction {
                name: String::from_str(name),
                args: one_name("self"),
                func: Native::ArrayLen,
            },
        )
    } else if same_text(name, "clear") {
        Some(
            Expr::InternalFunction {
                name: String::from_str(name),
                args: one_name("self"),
                func: Native::ArrayClear,
            },
        )
    } else if same_text(name, "push") {
        Some(
            Expr::InternalFunction {
                name: String::from_str(name),
                args: two_names("self", "value"),
                func: Native::ArrayPush,
            },
        )
    } else if same_text(name, "pop") {
        Some(
            Expr::InternalFunction {
                name: String::from_str(name),
                args: one_name("self"),
                func: Native::ArrayPop,
            },
        )
    } else {
        None
    }
}

} // verus!
