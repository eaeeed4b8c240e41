//! The methods of objects. A method that changes the object hands the new
//! object back as the receiver's replacement.

use crate::ast::{bindings_view, copy_bindings, nodes_view, BindingView, Expr, ExprView, InternalFunctionResponse, Native, ResponseView, Span, SpannedExpr, SpannedView};
use crate::builtins::array::{done, fail, failure, first_span, gives, one_name, span_of_first, three_names, two_names, value, NativeResult};
use crate::environment::{bind, lookup, Environment};
use crate::text::{int_text, push_int, push_text, same_text};
use vstd::prelude::*;

verus! {

/// `get`: the property of the object that the second argument names.
pub open spec fn get_spec(args: Seq<SpannedView>) -> NativeResult {
    if !(args.len() > 0 && args[0].node is Object) {
        failure("get expects an object as the first argument"@, first_span(args))
    } else if !(args.len() > 1 && args[1].node is String) {
        failure(
            "get expects a string as the second argument"@,
            if args.len() > 1 {
                args[1].span
            } else {
                args[0].span
            },
        )
    } else {
        let key = args[1].node->String_0;
        match lookup(args[0].node->Object_properties, key) {
            Some(v) => value(v),
            None => failure("Key '"@ + key + "' not found in object"@, args[1].span),
        }
    }
}

/// `set`: the object gets the third argument as the property that the
/// second argument names.
pub open spec fn set_spec(args: Seq<SpannedView>) -> NativeResult {
    if !(args.len() > 0 && args[0].node is Object) {
        failure("set expects an object as the first argument"@, first_span(args))
    } else if !(args.len() > 1 && args[1].node is String) {
        failure(
            "set expects a string as the second argument"@,
            if args.len() > 1 {
                args[1].span
            } else {
                args[0].span
            },
        )
    } else if args.len() < 3 {
        failure("set expects 3 arguments"@, args[0].span)
    } else {
        Ok(
            ResponseView {
                return_value: ExprView::Null,
                replace_self: Some(
                    ExprView::Object {
                        properties: bind(
                            args[0].node->Object_properties,
                            args[1].node->String_0,
                            args[2].node,
                        ),
                    },
                ),
            },
        )
    }
}

/// How `stringify` writes a property's value; `None` for a floating-point
/// number, which only the host can write.
pub open spec fn json_value(v: ExprView) -> Option<Seq<char>> {
    match v {
        ExprView::String(s) => Some("\""@ + s + "\""@),
        ExprView::Int(n) => Some(int_text(n as int)),
        ExprView::Bool(b) => Some(
            if b {
                "true"@
            } else {
                "false"@
            },
        ),
        ExprView::Null => Some("null"@),
        ExprView::Float(_) => None,
        _ => Some("<complex_value>"@),
    }
}

/// The first `n` properties as `stringify` writes them, separated by a
/// comma and a blank; `None` if one of them holds a floating-point number.
pub open spec fn json_members(props: Seq<BindingView>, n: int) -> Option<Seq<char>>
    decreases n,
{
    if n <= 0 || n > props.len() {
        Some(Seq::empty())
    } else {
        match (json_members(props, n - 1), json_value(props[n - 1].value)) {
            (Some(before), Some(v)) => Some(
                before + (if n > 1 {
                    ", "@
                } else {
                    ""@
                }) + "\""@ + props[n - 1].name + "\": "@ + v,
            ),
            _ => None,
        }
    }
}

/// `stringify`: the object written in braces, its properties in order.
pub open spec fn stringify_spec(args: Seq<SpannedView>) -> NativeResult {
    if !(args.len() > 0 && args[0].node is Object) {
        failure("stringify expects an object as the first argument"@, first_span(args))
    } else {
        let props = args[0].node->Object_properties;
        match json_members(props, props.len() as int) {
            Some(t) => value(ExprView::String("{"@ + t + "}"@)),
            None => failure("needs the host"@, args[0].span),
        }
    }
}

/// `get`: the property of the object that the second argument names.
pub fn get(args: Vec<SpannedExpr>) -> (r: Result<InternalFunctionResponse, (String, Span)>)
    ensures
        gives(r, get_spec(nodes_view(args@))),
{
    if args.len() > 0 {
        assert(nodes_view(args@)[0] == args@[0]@);
        match &args[0].node {
            Expr::Object { properties } => {
                if args.len() > 1 {
                    assert(nodes_view(args@)[1] == args@[1]@);
                    match &args[1].node {
                        Expr::String(key) => {
                            let object = Environment { entries: copy_bindings(properties) };
                            return match object.get(key.as_str()) {
                                Some(v) => done(v),
                                None => {
                                    let mut text = String::from_str("Key '");
                                    push_text(&mut text, key.as_str());
                                    push_text(&mut text, "' not found in object");
                                    Err((text, args[1].span))
                                },
                            };
                        },
                        _ => {
                            return fail("get expects a string as the second argument", args[1].span);
                        },
                    }
                }
                return fail("get expects a string as the second argument", args[0].span);
            },
            _ => {},
        }
    }
    fail("get expects an object as the first argument", span_of_first(&args))
}

/// `set`: the object gets the third argument as the property that the
/// second argument names.
pub fn set(args: Vec<SpannedExpr>) -> (r: Result<InternalFunctionResponse, (String, Span)>)
    ensures
        gives(r, set_spec(nodes_view(args@))),
{
    if args.len() > 0 {
        assert(nodes_view(args@)[0] == args@[0]@);
        match &args[0].node {
            Expr::Object { properties } => {
                if args.len() > 1 {
                    assert(nodes_view(args@)[1] == args@[1]@);
                    match &args[1].node {
                        Expr::String(key) => {
                            if args.len() < 3 {
                                return fail("set expects 3 arguments", args[0].span);
                            }
                            assert(nodes_view(args@)[2] == args@[2]@);
                            let mut object = Environment { entries: copy_bindings(properties) };
                            object.insert(key.clone(), args[2].node.copy());
                            return Ok(
                                InternalFunctionResponse {
                                    return_value: Expr::Null,
                                    replace_self: Some(Expr::Object { properties: object.entries }),
                                },
                            );
                        },
                        _ => {
                            return fail("set expects a string as the second argument", args[1].span);
                        },
                    }
                }
                return fail("set expects a string as the second argument", args[0].span);
            },
            _ => {},
        }
    }
    fail("set expects an object as the first argument", span_of_first(&args))
}

fn push_json_value(out: &mut String, v: &Expr) -> (r: bool)
    ensures
        match json_value(v@) {
            Some(t) => r && final(out)@ == old(out)@ + t,
            None => !r && final(out)@ == old(out)@,
        },
{
    match v {
        Expr::String(s) => {
            push_text(out, "\"");
            push_text(out, s.as_str());
            push_text(out, "\"");
            assert(out@ =~= old(out)@ + ("\""@ + s@ + "\""@));
            true
        },
        Expr::Int(n) => {
            push_int(out, *n);
            true
        },
        Expr::Bool(b) => {
            if *b {
                push_text(out, "true");
            } else {
                push_text(out, "false");
            }
            true
        },
        Expr::Null => {
            push_text(out, "null");
            true
        },
        Expr::Float(_) => false,
        _ => {
            push_text(out, "<complex_value>");
            true
        },
    }
}

proof fn json_members_fail(props: Seq<BindingView>, n: int, m: int)
    requires
        0 <= n <= m <= props.len(),
        json_members(props, n) is None,
    ensures
        json_members(props, m) is None,
    decreases m - n,
{
    if n < m {
        json_members_fail(props, n, m - 1);
    }
}

/// `stringify`: the object written in braces, its properties in order.
#[verifier::loop_isolation(false)]
pub fn stringify(args: Vec<SpannedExpr>) -> (r: Result<InternalFunctionResponse, (String, Span)>)
    ensures
        gives(r, stringify_spec(nodes_view(args@))),
{
    if args.len() > 0 {
        assert(nodes_view(args@)[0] == args@[0]@);
        match &args[0].node {
            Expr::Object { properties } => {
                let ghost props = bindings_view(properties@);
                let mut members = String::new();
                let mut i: usize = 0;
                assert(members@ =~= Seq::<char>::empty());
                while i < properties.len()
                    invariant
                        i <= properties.len(),
                        props == bindings_view(properties@),
                        json_members(props, i as int) == Some(members@),
                    decreases properties.len() - i,
                {
                    let ghost before = members@;
                    let mut piece = String::new();
                    if i > 0 {
                        push_text(&mut piece, ", ");
                    }
                    push_text(&mut piece, "\"");
                    push_text(&mut piece, properties[i].name.as_str());
                    push_text(&mut piece, "\": ");
                    let ghost head = piece@;
                    let ok = push_json_value(&mut piece, &properties[i].value);
                    assert(props[i as int] == properties@[i as int]@);
                    if !ok {
                        proof {
                            json_members_fail(props, i + 1, props.len() as int);
                        }
                        return fail("needs the host", args[0].span);
                    }
                    push_text(&mut members, piece.as_str());
                    proof {
                        let v = json_value(props[i as int].value)->0;
                        let sep = if i > 0 {
                            ", "@
                        } else {
                            ""@
                        };
                        reveal_strlit("");
                        assert(head =~= sep + "\""@ + props[i as int].name + "\": "@);
                        assert(members@ =~= before + sep + "\""@ + props[i as int].name + "\": "@
                            + v);
                    }
                    i += 1;
                }
                let mut text = String::from_str("{");
                push_text(&mut text, members.as_str());
                push_text(&mut text, "}");
                return done(Expr::String(text));
            },
            _ => {},
        }
    }
    fail("stringify expects an object as the first argument", span_of_first(&args))
}

/// The method of objects that is called `name`, if there is one.
pub open spec fn method(name: Seq<char>) -> Option<ExprView> {
    if name == "get"@ {
        Some(
            ExprView::InternalFunction { name, args: seq!["self"@, "key"@], func: Native::ObjectGet },
        )
    } else if name == "set"@ {
        Some(
            ExprView::InternalFunction {
                name,
                args: seq!["self"@, "key"@, "value"@],
                func: Native::ObjectSet,
            },
        )
    } else if name == "stringify"@ {
        Some(
            ExprView::InternalFunction { name, args: seq!["self"@], func: Native::ObjectStringify },
        )
    } else {
        None
    }
}

/// The method of objects that is called `name`, if there is one.
pub fn get_fn(name: &str) -> (r: Option<Expr>)
    ensures
        match r {
            Some(f) => method(name@) == Some(f@),
            None => method(name@) is None,
        },
{
    if same_text(name, "get") {
        Some(
            Expr::InternalFunction {
                name: String::from_str(name),
                args: two_names("self", "key"),
                func: Native::ObjectGet,
            },
        )
    } else if same_text(name, "set") {
        Some(
            Expr::InternalFunction {
                name: String::from_str(name),
                args: three_names("self", "key", "value"),
                func: Native::ObjectSet,
            },
        )
    } else if same_text(name, "stringify") {
        Some(
            Expr::InternalFunction {
                name: String::from_str(name),
                args: one_name("self"),
                func: Native::ObjectStringify,
            },
        )
    } else {
        None
    }
}

} // verus!
