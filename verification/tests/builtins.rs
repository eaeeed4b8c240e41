use modu::ast::{Binding, Expr, Float, InternalFunctionResponse, Native, Span, SpannedExpr};
use modu::builtins::{array, misc, object};
use modu::environment::Environment;
use modu::utils::{create_context, is_reserved};
use modu::values::{Flow, Kind};

fn arg(node: Expr, start: usize, end: usize) -> SpannedExpr {
    SpannedExpr::new(node, Span::new(start, end))
}

fn ints(items: &[i64]) -> Expr {
    Expr::Array(items.iter().map(|n| arg(Expr::Int(*n), 0, 0)).collect())
}

fn object_of(pairs: &[(&str, Expr)]) -> Expr {
    Expr::Object {
        properties: pairs
            .iter()
            .map(|(k, v)| Binding { name: k.to_string(), value: v.clone() })
            .collect(),
    }
}

#[test]
fn array_len() {
    let r = array::len(vec![arg(ints(&[1, 2, 3]), 0, 1)]).unwrap();
    assert!(matches!(r.return_value, Expr::Int(3)));
    assert!(r.replace_self.is_none());
    assert_eq!(array::len(vec![arg(Expr::Int(1), 2, 3)]).unwrap_err(), ("len expects an array".to_string(), Span::new(2, 3)));
    assert_eq!(array::len(vec![]).unwrap_err(), ("len expects an array".to_string(), Span::new(0, 0)));
}

#[test]
fn array_push_appends() {
    let r = array::push(vec![arg(ints(&[1, 2]), 0, 1), arg(Expr::Int(3), 2, 3)]).unwrap();
    assert!(matches!(r.return_value, Expr::Null));
    match r.replace_self {
        Some(Expr::Array(items)) => {
            assert_eq!(items.len(), 3);
            assert!(matches!(items[2].node, Expr::Int(3)));
            assert_eq!(items[2].span, Span::new(2, 3));
        }
        other => panic!("{:?}", other),
    }
    assert_eq!(
        array::push(vec![arg(ints(&[1]), 4, 5)]).unwrap_err(),
        ("push expects 2 arguments".to_string(), Span::new(4, 5))
    );
}

#[test]
fn array_pop_takes_the_last() {
    let r = array::pop(vec![arg(ints(&[1, 2]), 0, 1)]).unwrap();
    assert!(matches!(r.return_value, Expr::Int(2)));
    assert!(matches!(r.replace_self, Some(Expr::Array(items)) if items.len() == 1));
    assert_eq!(
        array::pop(vec![arg(ints(&[]), 4, 5)]).unwrap_err(),
        ("Cannot pop from an empty array".to_string(), Span::new(4, 5))
    );
}

#[test]
fn array_clear_empties() {
    let r = array::clear(vec![arg(ints(&[1, 2]), 0, 1)]).unwrap();
    assert!(matches!(r.return_value, Expr::Null));
    assert!(matches!(r.replace_self, Some(Expr::Array(items)) if items.is_empty()));
}

#[test]
fn array_methods_by_name() {
    for (name, formal) in [("len", 1), ("clear", 1), ("push", 2), ("pop", 1)] {
        match array::get_fn(name) {
            Some(Expr::InternalFunction { name: n, args, .. }) => {
                assert_eq!(n, name);
                assert_eq!(args.len(), formal);
                assert_eq!(args[0], "self");
            }
            other => panic!("{:?}", other),
        }
    }
    assert!(matches!(array::get_fn("push"), Some(Expr::InternalFunction { func: Native::ArrayPush, .. })));
    assert!(array::get_fn("get").is_none());
    assert!(array::get_fn("").is_none());
}

#[test]
fn object_get_and_set() {
    let o = object_of(&[("a", Expr::Int(1)), ("b", Expr::Bool(true))]);
    let r = object::get(vec![arg(o.clone(), 0, 1), arg(Expr::String("b".to_string()), 2, 3)]).unwrap();
    assert!(matches!(r.return_value, Expr::Bool(true)));
    assert_eq!(
        object::get(vec![arg(o.clone(), 0, 1), arg(Expr::String("c".to_string()), 2, 3)]).unwrap_err(),
        ("Key 'c' not found in object".to_string(), Span::new(2, 3))
    );
    assert_eq!(
        object::get(vec![arg(o.clone(), 0, 1), arg(Expr::Int(1), 2, 3)]).unwrap_err(),
        ("get expects a string as the second argument".to_string(), Span::new(2, 3))
    );
    assert_eq!(
        object::get(vec![arg(Expr::Int(1), 0, 1)]).unwrap_err(),
        ("get expects an object as the first argument".to_string(), Span::new(0, 1))
    );

    let r = object::set(vec![
        arg(o.clone(), 0, 1),
        arg(Expr::String("a".to_string()), 2, 3),
        arg(Expr::Int(7), 4, 5),
    ])
    .unwrap();
    match r.replace_self {
        Some(Expr::Object { properties }) => {
            assert_eq!(properties.len(), 2);
            assert_eq!(properties[0].name, "a");
            assert!(matches!(properties[0].value, Expr::Int(7)));
        }
        other => panic!("{:?}", other),
    }
    let r = object::set(vec![
        arg(o.clone(), 0, 1),
        arg(Expr::String("c".to_string()), 2, 3),
        arg(Expr::Null, 4, 5),
    ])
    .unwrap();
    assert!(matches!(r.replace_self, Some(Expr::Object { properties }) if properties.len() == 3 && properties[2].name == "c"));
    assert_eq!(
        object::set(vec![arg(o, 0, 1), arg(Expr::String("c".to_string()), 2, 3)]).unwrap_err().0,
        "set expects 3 arguments"
    );
}

#[test]
fn object_stringify() {
    let o = object_of(&[
        ("name", Expr::String("x".to_string())),
        ("n", Expr::Int(-3)),
        ("ok", Expr::Bool(false)),
        ("none", Expr::Null),
        ("list", ints(&[1])),
    ]);
    let r = object::stringify(vec![arg(o, 0, 1)]).unwrap();
    match r.return_value {
        Expr::String(s) => assert_eq!(
            s,
            "{\"name\": \"x\", \"n\": -3, \"ok\": false, \"none\": null, \"list\": <complex_value>}"
        ),
        other => panic!("{:?}", other),
    }
    let r = object::stringify(vec![arg(object_of(&[]), 0, 1)]).unwrap();
    assert!(matches!(r.return_value, Expr::String(s) if s == "{}"));
    let with_float = object_of(&[("x", Expr::Float(Float { bits: 0 }))]);
    assert_eq!(object::stringify(vec![arg(with_float, 0, 1)]).unwrap_err().0, "needs the host");
    assert_eq!(
        object::stringify(vec![arg(Expr::Null, 0, 1)]).unwrap_err().0,
        "stringify expects an object as the first argument"
    );
}

#[test]
fn object_methods_by_name() {
    assert!(matches!(object::get_fn("get"), Some(Expr::InternalFunction { func: Native::ObjectGet, .. })));
    assert!(matches!(object::get_fn("set"), Some(Expr::InternalFunction { func: Native::ObjectSet, args, .. }) if args.len() == 3));
    assert!(matches!(object::get_fn("stringify"), Some(Expr::InternalFunction { func: Native::ObjectStringify, .. })));
    assert!(object::get_fn("len").is_none());
}

#[test]
fn conversions_to_text() {
    let s = |e: Expr| match misc::str(vec![arg(e, 0, 1)]) {
        Ok(InternalFunctionResponse { return_value: Expr::String(s), replace_self: None }) => s,
        other => panic!("{:?}", other),
    };
    assert_eq!(s(Expr::Int(0)), "0");
    assert_eq!(s(Expr::Int(-120)), "-120");
    assert_eq!(s(Expr::Int(i64::MIN)), "-9223372036854775808");
    assert_eq!(s(Expr::Int(i64::MAX)), "9223372036854775807");
    assert_eq!(s(Expr::String("a\\n".to_string())), "a\\n");
    assert_eq!(s(Expr::Bool(true)), "true");
    assert_eq!(s(Expr::Null), "null");
    assert_eq!(misc::str(vec![arg(ints(&[]), 1, 2)]).unwrap_err(), ("Cannot convert value to string".to_string(), Span::new(1, 2)));
    assert_eq!(misc::str(vec![]).unwrap_err().0, "str expects 1 argument");
}

#[test]
fn conversions_to_integers_and_booleans() {
    let i = |e: Expr| misc::integer(vec![arg(e, 0, 1)]);
    assert!(matches!(i(Expr::Int(5)), Ok(InternalFunctionResponse { return_value: Expr::Int(5), .. })));
    assert!(matches!(i(Expr::String("12".to_string())), Ok(InternalFunctionResponse { return_value: Expr::Int(12), .. })));
    assert!(matches!(i(Expr::Bool(false)), Ok(InternalFunctionResponse { return_value: Expr::Int(0), .. })));
    assert_eq!(i(Expr::Null).unwrap_err().0, "Cannot convert value to int");
    assert_eq!(i(Expr::String(" 1".to_string())).unwrap_err().0, "Could not convert string to int: invalid digit found in string");
    assert_eq!(i(Expr::String("-".to_string())).unwrap_err().0, "Could not convert string to int: invalid digit found in string");

    let b = |e: Expr| misc::bool(vec![arg(e, 0, 1)]);
    assert!(matches!(b(Expr::Int(2)), Ok(InternalFunctionResponse { return_value: Expr::Bool(true), .. })));
    assert!(matches!(b(Expr::String("yes".to_string())), Ok(InternalFunctionResponse { return_value: Expr::Bool(false), .. })));
    assert!(matches!(b(Expr::Null), Ok(InternalFunctionResponse { return_value: Expr::Bool(false), .. })));
    assert_eq!(b(ints(&[])).unwrap_err().0, "Cannot convert value to bool");

    let f = Float { bits: 1.5f64.to_bits() };
    assert!(matches!(
        misc::float(vec![arg(Expr::Float(f), 0, 1)]),
        Ok(InternalFunctionResponse { return_value: Expr::Float(g), .. }) if g == f
    ));
    assert_eq!(misc::float(vec![arg(Expr::Int(1), 0, 1)]).unwrap_err().0, "needs the host");
    assert_eq!(misc::float(vec![arg(Expr::Null, 0, 1)]).unwrap_err().0, "Cannot convert value to float");
}

#[test]
fn print_makes_its_line() {
    let args = vec![arg(Expr::String("a\\n".to_string()), 0, 1), arg(Expr::Int(1), 2, 3)];
    assert_eq!(misc::print(&args).unwrap(), "a\n1\n");
    assert_eq!(misc::print(&vec![]).unwrap(), "\n");
    assert!(misc::print(&vec![arg(Expr::Float(Float { bits: 0 }), 0, 1)]).is_none());
}

#[test]
fn the_initial_environment() {
    let context = create_context();
    assert_eq!(context.keys(), ["print", "input", "exit", "str", "int", "float", "bool"]);
    assert!(matches!(
        context.get("print"),
        Some(Expr::InternalFunction { func: Native::Print, args, .. }) if args == ["__args__"]
    ));
    assert!(matches!(
        context.get("int"),
        Some(Expr::InternalFunction { func: Native::Int, args, .. }) if args == ["value"]
    ));
    let mut again = create_context();
    misc::fill_context(&mut again);
    assert_eq!(again.len(), 7);
}

#[test]
fn reserved_words() {
    for word in ["let", "fn", "import", "if", "null", "return", "as", "loop"] {
        assert!(is_reserved(word), "{}", word);
    }
    for word in ["for", "break", "x", "", "Let", "lett"] {
        assert!(!is_reserved(word), "{}", word);
    }
}

#[test]
fn environment_binds_in_place() {
    let mut env = Environment::new();
    env.insert("a".to_string(), Expr::Int(1));
    env.insert("b".to_string(), Expr::Int(2));
    env.insert("a".to_string(), Expr::Int(3));
    assert_eq!(env.keys(), ["a", "b"]);
    assert!(matches!(env.get("a"), Some(Expr::Int(3))));
    assert!(env.get("c").is_none());
    assert!(env.contains_key("b"));
    assert_eq!(env.position("b"), 1);
    assert_eq!(env.position("z"), 2);
}

#[test]
fn environment_prunes_to_the_given_names() {
    let mut env = Environment::new();
    env.insert("a".to_string(), Expr::Int(1));
    env.insert("b".to_string(), Expr::Int(2));
    env.insert("c".to_string(), Expr::Int(3));
    env.prune(&vec!["c".to_string(), "a".to_string(), "x".to_string()]);
    assert_eq!(env.keys(), ["a", "c"]);
    let base = create_context();
    let mut grown = create_context();
    grown.insert("mine".to_string(), Expr::Null);
    grown.insert("print".to_string(), Expr::Null);
    assert_eq!(grown.without(&base).keys(), ["mine"]);
    let copy = grown.clone();
    assert_eq!(copy.keys(), grown.keys());
    env.extend(&copy.entries);
    assert_eq!(env.len(), 2 + 8);
}

#[test]
fn flows_unwrap_to_their_values() {
    assert!(matches!(Flow::Continue(Expr::Int(1)).unwrap(), Expr::Int(1)));
    assert!(matches!(Flow::Return(Expr::Int(2)).unwrap(), Expr::Int(2)));
    assert!(matches!(Flow::Break.unwrap(), Expr::Null));
    assert!(matches!(Flow::Skip.unwrap(), Expr::Null));
}

#[test]
fn kinds_of_values() {
    assert_eq!(modu::values::kind(&Expr::Int(1)), Kind::Int);
    assert_eq!(modu::values::kind(&Expr::Null), Kind::Null);
    assert_eq!(modu::values::kind(&ints(&[])), Kind::Array);
    assert_eq!(modu::values::kind(&Expr::Break), Kind::Syntax);
}
