use modu::ast::{BinaryOp, Expr, Float, Native, Span, SpannedExpr};
use modu::environment::Environment;
use modu::evaluator::{eval, parse, Diagnostic};
use modu::semantics::TopLevel;
use modu::session::{Answer, FloatOp, Piece, Request, Session};
use modu::utils::create_context;
use modu::values::{Escape, EvalError, EvalErrorKind, Flow, ImportFailure, Kind, Operator};

fn number(v: &Expr) -> f64 {
    match v {
        Expr::Int(n) => *n as f64,
        Expr::Float(f) => f64::from_bits(f.bits),
        _ => panic!("not a number: {:?}", v),
    }
}

fn float(x: f64) -> Expr {
    Expr::Float(Float { bits: x.to_bits() })
}

fn text_of(v: &Expr) -> String {
    match v {
        Expr::Int(n) => n.to_string(),
        Expr::Float(f) => f64::from_bits(f.bits).to_string(),
        Expr::String(s) => s.clone(),
        Expr::Bool(b) => b.to_string(),
        Expr::Null => "null".to_string(),
        other => format!("{:?}", other),
    }
}

fn written(output: &[Piece]) -> String {
    let mut text = String::new();
    for piece in output {
        match piece {
            Piece::Text(t) => text.push_str(t),
            Piece::Values(args) => {
                for a in args {
                    text.push_str(&text_of(&a.node));
                }
                text.push('\n');
            }
        }
    }
    text
}

fn answer(request: &Request, files: &[(&str, &str)]) -> Answer {
    match request {
        Request::Float { op, left, right } => match op {
            FloatOp::Parse => match left {
                Expr::String(s) => match s.parse::<f64>() {
                    Ok(x) => Answer::Value(float(x)),
                    Err(e) => Answer::Failure(e.to_string()),
                },
                _ => Answer::Failure("not a literal".to_string()),
            },
            FloatOp::Negate => Answer::Value(float(-number(left))),
            FloatOp::Binary(b) => {
                let (l, r) = (number(left), number(right));
                Answer::Value(match b {
                    BinaryOp::Add => float(l + r),
                    BinaryOp::Sub => float(l - r),
                    BinaryOp::Equal => Expr::Bool(l == r),
                    BinaryOp::NotEqual => Expr::Bool(l != r),
                    BinaryOp::LessThan => Expr::Bool(l < r),
                    BinaryOp::LessThanOrEqual => Expr::Bool(l <= r),
                    BinaryOp::GreaterThan => Expr::Bool(l > r),
                    BinaryOp::GreaterThanOrEqual => Expr::Bool(l >= r),
                })
            }
        },
        Request::Native { func, args } => match func {
            Native::Str => Answer::Value(Expr::String(text_of(&args[0].node))),
            Native::Float => match &args[0].node {
                Expr::Int(n) => Answer::Value(float(*n as f64)),
                Expr::Bool(b) => Answer::Value(float(if *b { 1.0 } else { 0.0 })),
                Expr::String(s) => match s.parse::<f64>() {
                    Ok(x) => Answer::Value(float(x)),
                    Err(e) => Answer::Failure(format!("Could not convert string to float: {}", e)),
                },
                _ => Answer::Failure("unexpected".to_string()),
            },
            Native::Int => Answer::Value(Expr::Int(number(&args[0].node) as i64)),
            Native::MathMul => Answer::Value(float(number(&args[0].node) * number(&args[1].node))),
            Native::MathDiv => Answer::Value(float(number(&args[0].node) / number(&args[1].node))),
            Native::Input => Answer::Value(Expr::String("typed".to_string())),
            other => Answer::Failure(format!("no host for {:?}", other)),
        },
        Request::ReadFile { path } => {
            for (name, content) in files {
                if name == path {
                    return Answer::Value(Expr::String(content.to_string()));
                }
            }
            Answer::Failure(format!("no such file: {}", path))
        }
        Request::FileExists { path } => {
            Answer::Value(Expr::Bool(files.iter().any(|(name, _)| name == path)))
        }
        Request::Ffi { symbol, args, .. } => {
            Answer::Value(Expr::String(format!("{}/{}", symbol, args.len())))
        }
    }
}

struct Run {
    result: Result<(), Diagnostic>,
    output: String,
    env: Environment,
    requests: usize,
}

fn run_with(source: &str, files: &[(&str, &str)], sandbox: bool) -> Run {
    let mut answers: Vec<Answer> = Vec::new();
    loop {
        let mut env = create_context();
        let mut session = Session::new("", "testos", sandbox, 10_000);
        session.answers = answers.clone();
        let result = parse(source, &mut env, &mut session, 64);
        let suspended = match &result {
            Err(Diagnostic::Eval(e)) => e.kind == EvalErrorKind::Suspended,
            _ => false,
        };
        if suspended {
            let request = session.pending.take().expect("a pending request");
            answers.push(answer(&request, files));
            assert!(answers.len() < 1000);
            continue;
        }
        return Run { result, output: written(&session.output), env, requests: answers.len() };
    }
}

fn run(source: &str) -> Run {
    run_with(source, &[], false)
}

fn failure(run: &Run) -> &EvalError {
    match &run.result {
        Err(Diagnostic::Eval(e)) => e,
        other => panic!("expected an evaluation error, got {:?}", other),
    }
}

fn value_of(source: &str) -> Expr {
    let program = format!("let result = {};", source);
    let r = run(&program);
    assert!(r.result.is_ok(), "{:?}", r.result);
    r.env.get("result").expect("result is bound")
}

fn error_of(source: &str) -> EvalError {
    let program = format!("let result = {};", source);
    let r = run(&program);
    match r.result {
        Err(Diagnostic::Eval(e)) => e,
        other => panic!("expected an evaluation error, got {:?}", other),
    }
}

// --- arithmetic -------------------------------------------------------------

#[test]
fn addition() {
    assert!(matches!(value_of("1 + 2"), Expr::Int(3)));
}

#[test]
fn subtraction() {
    assert!(matches!(value_of("1 - 2"), Expr::Int(-1)));
}

#[test]
fn negative_num() {
    assert!(matches!(value_of("-2"), Expr::Int(-2)));
}

#[test]
fn join_strings() {
    match value_of("\"Hello,\" + \" World!\"") {
        Expr::String(s) => assert_eq!(s, "Hello, World!"),
        other => panic!("{:?}", other),
    }
}

#[test]
fn add_floats() {
    match value_of("1.0 + 2.0") {
        Expr::Float(f) => assert_eq!(f64::from_bits(f.bits), 3.0),
        other => panic!("{:?}", other),
    }
}

#[test]
fn add_float_and_int() {
    match value_of("1.0 + 2") {
        Expr::Float(f) => assert_eq!(f64::from_bits(f.bits), 3.0),
        other => panic!("{:?}", other),
    }
}

#[test]
fn add_int_and_float() {
    match value_of("1 + 2.0") {
        Expr::Float(f) => assert_eq!(f64::from_bits(f.bits), 3.0),
        other => panic!("{:?}", other),
    }
}

#[test]
fn add_int_and_string() {
    let e = error_of("1 + \"cookie\"");
    assert_eq!(
        e.kind,
        EvalErrorKind::TypeMismatch {
            operator: Operator::Binary(BinaryOp::Add),
            left: Kind::Int,
            right: Kind::String
        }
    );
    assert_eq!(e.message, "cannot add: Int and String");
    assert_eq!(e.message_short, "cannot add");
    assert_eq!(e.span, Span { start: 13, end: 25 });
}

#[test]
fn additive_chain_folds_to_the_left() {
    assert!(matches!(value_of("10 - 3 - 2"), Expr::Int(5)));
    assert!(matches!(value_of("10 - 3 + 2"), Expr::Int(9)));
    assert!(matches!(value_of("10 - (3 - 2)"), Expr::Int(9)));
}

#[test]
fn integer_sums_wrap_around() {
    assert!(matches!(value_of("9223372036854775807 + 1"), Expr::Int(i64::MIN)));
    assert!(matches!(value_of("-9223372036854775807 - 2"), Expr::Int(i64::MAX)));
}

#[test]
fn subtraction_has_no_string_case() {
    let e = error_of("\"a\" - \"b\"");
    assert_eq!(
        e.kind,
        EvalErrorKind::TypeMismatch {
            operator: Operator::Binary(BinaryOp::Sub),
            left: Kind::String,
            right: Kind::String
        }
    );
}

#[test]
fn negation_of_a_string_fails() {
    let e = error_of("-\"a\"");
    assert_eq!(
        e.kind,
        EvalErrorKind::TypeMismatch { operator: Operator::Negate, left: Kind::String, right: Kind::Null }
    );
    assert_eq!(e.message_short, "cannot negate");
}

#[test]
fn negation_of_a_float_asks_the_host() {
    match value_of("-1.5") {
        Expr::Float(f) => assert_eq!(f64::from_bits(f.bits), -1.5),
        other => panic!("{:?}", other),
    }
}

// --- comparisons ------------------------------------------------------------

#[test]
fn equality_never_fails() {
    assert!(matches!(value_of("1 == 1"), Expr::Bool(true)));
    assert!(matches!(value_of("1 == \"1\""), Expr::Bool(false)));
    assert!(matches!(value_of("1 != \"1\""), Expr::Bool(true)));
    assert!(matches!(value_of("null == null"), Expr::Bool(true)));
    assert!(matches!(value_of("null != null"), Expr::Bool(false)));
    assert!(matches!(value_of("\"a\" == \"a\""), Expr::Bool(true)));
    assert!(matches!(value_of("true != false"), Expr::Bool(true)));
    assert!(matches!(value_of("1 == 1.0"), Expr::Bool(true)));
}

#[test]
fn ordering_needs_numbers() {
    assert!(matches!(value_of("1 < 2"), Expr::Bool(true)));
    assert!(matches!(value_of("2 <= 2"), Expr::Bool(true)));
    assert!(matches!(value_of("1 > 2"), Expr::Bool(false)));
    assert!(matches!(value_of("1 >= 2"), Expr::Bool(false)));
    assert!(matches!(value_of("1.5 < 2"), Expr::Bool(true)));
    let e = error_of("\"a\" < \"b\"");
    assert_eq!(
        e.kind,
        EvalErrorKind::TypeMismatch {
            operator: Operator::Binary(BinaryOp::LessThan),
            left: Kind::String,
            right: Kind::String
        }
    );
    assert_eq!(e.message_short, "cannot compare");
}

#[test]
fn comparisons_chain_to_the_left() {
    assert!(matches!(value_of("1 < 2 == true"), Expr::Bool(true)));
}

#[test]
fn addition_in_if_statement() {
    let r = run("if 1 + 1 == 2 {\n print(\"Hello, world!\"); \n}");
    assert!(r.result.is_ok());
    assert_eq!(r.output, "Hello, world!\n");
    let r = run("if 3 == 1 + 2 {\n print(\"Hello, world!\"); \n}");
    assert!(r.result.is_ok());
    assert_eq!(r.output, "Hello, world!\n");
}

#[test]
fn subtraction_in_if_statement() {
    let r = run("if 2 - 1 == 1 {\n print(\"Hello, world!\"); \n}");
    assert!(r.result.is_ok());
    assert_eq!(r.output, "Hello, world!\n");
    let r = run("if 3 == 2 - 1 {\n print(\"Hello, world!\"); \n}");
    assert!(r.result.is_ok());
    assert_eq!(r.output, "");
}

// --- variables --------------------------------------------------------------

#[test]
fn unknown_variable() {
    let r = run("unknown;");
    assert!(r.result.is_ok());
    assert_eq!(r.output, "");
}

#[test]
fn unknown_variable_inside_an_expression_fails() {
    let r = run("print(unknown);");
    let e = failure(&r);
    assert_eq!(e.kind, EvalErrorKind::UndefinedVariable);
    assert_eq!(e.message, "not defined: unknown");
    assert_eq!(e.span, Span { start: 6, end: 13 });
}

#[test]
fn unknown_function() {
    let r = run("cookie();");
    let e = failure(&r);
    assert_eq!(e.kind, EvalErrorKind::UndefinedFunction);
    assert_eq!(e.message, "function not defined: cookie");
}

#[test]
fn let_str() {
    let r = run("let x = \"test\";");
    assert!(r.result.is_ok());
    assert!(matches!(r.env.get("x"), Some(Expr::String(s)) if s == "test"));
}

#[test]
fn let_number() {
    let r = run("let x = 10;");
    assert!(r.result.is_ok());
    assert!(matches!(r.env.get("x"), Some(Expr::Int(10))));
}

#[test]
fn let_boolean() {
    let r = run("let x = true;");
    assert!(r.result.is_ok());
    assert!(matches!(r.env.get("x"), Some(Expr::Bool(true))));
}

#[test]
fn let_float() {
    let r = run("let x = 1.123;");
    assert!(r.result.is_ok());
    assert!(matches!(r.env.get("x"), Some(Expr::Float(f)) if f64::from_bits(f.bits) == 1.123));
}

#[test]
fn let_unknown_var() {
    let r = run("let x = y;");
    let e = failure(&r);
    assert_eq!(e.kind, EvalErrorKind::UndefinedVariable);
    assert_eq!(e.message, "not defined: y");
}

#[test]
fn not_a_function() {
    let r = run("let x = 1; x();");
    assert_eq!(failure(&r).kind, EvalErrorKind::NotAFunction);
}

// --- print ------------------------------------------------------------------

#[test]
fn print_str() {
    let r = run("print(\"Hello, world!\");");
    assert!(r.result.is_ok());
    assert_eq!(r.output, "Hello, world!\n");
    assert_eq!(r.requests, 0);
}

#[test]
fn print_number() {
    let r = run("print(10);");
    assert_eq!(r.output, "10\n");
}

#[test]
fn print_float() {
    let r = run("print(1.123);");
    assert!(r.result.is_ok());
    assert_eq!(r.output, "1.123\n");
}

#[test]
fn print_boolean() {
    let r = run("print(true);");
    assert_eq!(r.output, "true\n");
}

#[test]
fn print_var() {
    let r = run("let x = 10; print(x);");
    assert_eq!(r.output, "10\n");
}

#[test]
fn print_unknown_var() {
    let r = run("print(x);");
    assert_eq!(failure(&r).kind, EvalErrorKind::UndefinedVariable);
}

#[test]
fn print_multipile_args_seperated_by_comma() {
    let r = run("print(\"Hello, world!\", 10, 1.123, true);");
    assert!(r.result.is_ok());
    assert_eq!(r.output, "Hello, world!101.123true\n");
}

#[test]
fn print_multipile_args_seperated_by_plus() {
    let r = run("print(\"Hello, world!\" + 10 + 1.123 + true);");
    assert!(matches!(failure(&r).kind, EvalErrorKind::TypeMismatch { .. }));
}

#[test]
fn print_resolves_escape_sequences() {
    let r = run("print(\"a\\tb\\n\\\"c\\\" \\\\ \\x41\\q\");");
    assert!(r.result.is_ok(), "{:?}", r.result);
    assert_eq!(r.output, "a\tb\n\"c\" \\ A\\q\n");
}

#[test]
fn print_null_and_negative() {
    let r = run("print(null, -5);");
    assert_eq!(r.output, "null-5\n");
}

#[test]
fn print_writes_arrays_and_objects() {
    let r = run("print([1, \"a\\tb\", [true, null]]);");
    assert!(r.result.is_ok(), "{:?}", r.result);
    assert_eq!(r.output, "[1, a\tb, [true, null]]\n");
    let r = run("let a = [1]; a.clear(); print(a);");
    assert_eq!(r.output, "[]\n");
    assert_eq!(r.requests, 0);

    let object = Expr::Object {
        properties: vec![
            modu::ast::Binding { name: "name".to_string(), value: Expr::String("a \"b\"\n".to_string()) },
            modu::ast::Binding { name: "n".to_string(), value: Expr::Int(3) },
            modu::ast::Binding { name: "inner".to_string(), value: Expr::Object { properties: vec![] } },
        ],
    };
    assert_eq!(
        modu::values::show(&object).unwrap(),
        "{ \"name\": \"a \\\"b\\\"\\n\", \"n\": 3, \"inner\": { } }"
    );
    assert!(modu::values::show(&float(1.5)).is_none());
    assert!(modu::values::show(&Expr::Array(vec![SpannedExpr::new(float(1.5), Span::new(0, 1))])).is_none());
    assert!(modu::values::show(&Expr::Break).is_none());
}

#[test]
fn print_leaves_other_values_to_the_host() {
    let mut env = create_context();
    env.insert("x".to_string(), float(1.5));
    let mut session = Session::new("", "testos", false, 100);
    let r = parse("print(\"x is \", x); print([x]); print(1);", &mut env, &mut session, 16);
    assert!(r.is_ok(), "{:?}", r);
    assert_eq!(session.cursor, 0);
    assert_eq!(session.output.len(), 3);
    assert!(matches!(&session.output[0], Piece::Values(args) if args.len() == 2));
    assert!(matches!(&session.output[1], Piece::Values(args) if args.len() == 1));
    assert!(matches!(&session.output[2], Piece::Text(t) if t == "1\n"));
    assert_eq!(written(&session.output[0..1]), "x is 1.5\n");
}

// --- control flow -----------------------------------------------------------

#[test]
fn for_loop_excludes_its_end() {
    let r = run("for i = 0..3 { print(i); }");
    assert!(r.result.is_ok(), "{:?}", r.result);
    assert_eq!(r.output, "0\n1\n2\n");
}

#[test]
fn inclusive_for_loop_visits_its_end() {
    let r = run("for i = 0..=3 { print(i); }");
    assert!(r.result.is_ok(), "{:?}", r.result);
    assert_eq!(r.output, "0\n1\n2\n3\n");
}

#[test]
fn empty_ranges_do_nothing() {
    assert_eq!(run("for i = 3..3 { print(i); }").output, "");
    assert_eq!(run("for i = 5..1 { print(i); }").output, "");
    assert_eq!(run("for i = 3..=3 { print(i); }").output, "3\n");
}

#[test]
fn for_loop_at_the_largest_integer() {
    let r = run("for i = 9223372036854775806..=9223372036854775807 { print(i); }");
    assert!(r.result.is_ok(), "{:?}", r.result);
    assert_eq!(r.output, "9223372036854775806\n9223372036854775807\n");
}

#[test]
fn a_range_is_a_value_whose_bounds_are_evaluated_by_the_loop() {
    let r = run("let n = 2; let r = 0..n; let n = 4; for i = r { print(i); }");
    assert!(r.result.is_ok(), "{:?}", r.result);
    assert_eq!(r.output, "0\n1\n2\n3\n");
    let r = run("let a = 1; for i = a..a + 2 { print(i); }");
    assert_eq!(r.output, "1\n2\n");
    let r = run("for i = 0..=2 == 1 { }");
    assert_eq!(
        failure(&r).kind,
        EvalErrorKind::TypeMismatch { operator: Operator::Iterate, left: Kind::Bool, right: Kind::Null }
    );
}

#[test]
fn loop_variable_stays_bound() {
    let r = run("for i = 0..3 { } print(i);");
    assert_eq!(r.output, "2\n");
}

#[test]
fn break_ends_the_loop() {
    let r = run("for i = 0..10 { if i == 2 { break; } print(i); } print(\"done\");");
    assert!(r.result.is_ok(), "{:?}", r.result);
    assert_eq!(r.output, "0\n1\ndone\n");
}

#[test]
fn continue_ends_the_iteration() {
    let r = run("for i = 0..4 { if i == 1 { continue; } print(i); }");
    assert!(r.result.is_ok(), "{:?}", r.result);
    assert_eq!(r.output, "0\n2\n3\n");
}

#[test]
fn infinite_loop_breaks() {
    let r = run("let n = 0; loop { let n = n + 1; if n == 3 { break; } } print(n);");
    assert!(r.result.is_ok(), "{:?}", r.result);
    assert_eq!(r.output, "3\n");
}

#[test]
fn infinite_loop_runs_out_of_steps() {
    let r = run("loop { }");
    assert_eq!(failure(&r).kind, EvalErrorKind::StepLimitExceeded);
}

#[test]
fn range_bounds_must_be_integers() {
    let r = run("for i = \"a\"..3 { }");
    assert_eq!(
        failure(&r).kind,
        EvalErrorKind::TypeMismatch { operator: Operator::RangeStart, left: Kind::String, right: Kind::Null }
    );
    let r = run("for i = 0..null { }");
    assert_eq!(
        failure(&r).kind,
        EvalErrorKind::TypeMismatch { operator: Operator::RangeEnd, left: Kind::Null, right: Kind::Null }
    );
    let r = run("for i = 5 { }");
    assert_eq!(
        failure(&r).kind,
        EvalErrorKind::TypeMismatch { operator: Operator::Iterate, left: Kind::Int, right: Kind::Null }
    );
}

#[test]
fn if_takes_the_else_branch_on_false_and_null() {
    assert_eq!(run("if false { print(1); } else { print(2); }").output, "2\n");
    assert_eq!(run("if null { print(1); } else { print(2); }").output, "2\n");
    assert_eq!(run("if null { print(1); }").output, "");
    assert_eq!(run("if true { print(1); } else { print(2); }").output, "1\n");
}

#[test]
fn if_condition_must_be_a_boolean() {
    let r = run("if 1 { print(1); }");
    let e = failure(&r);
    assert_eq!(
        e.kind,
        EvalErrorKind::TypeMismatch { operator: Operator::Condition, left: Kind::Int, right: Kind::Null }
    );
    assert_eq!(e.message_short, "invalid condition");
}

#[test]
fn break_cannot_leave_a_function() {
    let r = run("fn f() { break; } f();");
    assert_eq!(failure(&r).kind, EvalErrorKind::UnexpectedControlFlow(Escape::Break));
    let r = run("fn f() { continue; } f();");
    assert_eq!(failure(&r).kind, EvalErrorKind::UnexpectedControlFlow(Escape::Skip));
}

#[test]
fn break_in_a_top_level_block_fails_when_it_runs() {
    let r = run("if true { break; }");
    assert_eq!(failure(&r).kind, EvalErrorKind::UnexpectedControlFlow(Escape::Break));
    let r = run("if true { return 1; }");
    assert_eq!(failure(&r).kind, EvalErrorKind::UnexpectedControlFlow(Escape::Return));
}

#[test]
fn top_level_return_is_rejected_before_anything_runs() {
    let r = run("print(1); return 2;");
    assert!(matches!(r.result, Err(Diagnostic::TopLevel(TopLevel::Return, Span { start: 10, end: 19 }))), "{:?}", r.result);
    assert_eq!(r.output, "");
    let r = run("break;");
    assert!(matches!(r.result, Err(Diagnostic::TopLevel(TopLevel::Break, _))));
    let r = run("continue;");
    assert!(matches!(r.result, Err(Diagnostic::TopLevel(TopLevel::Continue, _))));
}

// --- functions --------------------------------------------------------------

#[test]
fn function_returns_its_value() {
    let r = run("fn add(a, b) { return a + b; } print(add(2, 3));");
    assert!(r.result.is_ok(), "{:?}", r.result);
    assert_eq!(r.output, "5\n");
}

#[test]
fn function_without_return_gives_null() {
    let r = run("fn f() { let a = 1; } print(f());");
    assert_eq!(r.output, "null\n");
}

#[test]
fn return_unwinds_loops() {
    let r = run("fn f() { for i = 0..10 { if i == 3 { return i; } } return 99; } print(f());");
    assert!(r.result.is_ok(), "{:?}", r.result);
    assert_eq!(r.output, "3\n");
}

#[test]
fn function_arity_is_exact() {
    let r = run("fn f(a, b) { return a; } f(1);");
    let e = failure(&r);
    assert_eq!(e.kind, EvalErrorKind::ArityMismatch { too_many: false, count: 1 });
    assert_eq!(e.message_short, "1 arguments too few");
    assert_eq!(e.span, Span { start: 25, end: 29 });

    let r = run("fn f(a, b) { return a; } f(1, 2, 30);");
    let e = failure(&r);
    assert_eq!(e.kind, EvalErrorKind::ArityMismatch { too_many: true, count: 1 });
    assert_eq!(e.message_short, "1 arguments too many");
    assert_eq!(e.span, Span { start: 33, end: 35 });
}

#[test]
fn native_arity_is_checked_unless_variadic() {
    let r = run("import \"math\" as m; m.mul(1);");
    let e = failure(&r);
    assert_eq!(e.kind, EvalErrorKind::ArityMismatch { too_many: false, count: 1 });
    let r = run("import \"math\" as m; m.mul(1, 2, 3, 4);");
    let e = failure(&r);
    assert_eq!(e.kind, EvalErrorKind::ArityMismatch { too_many: true, count: 2 });
    assert_eq!(e.message_short, "2 arguments too many");
    assert_eq!(e.span, Span { start: 32, end: 36 });
    let r = run("print(); print(1, 2, 3);");
    assert!(r.result.is_ok());
    assert_eq!(r.output, "\n123\n");
}

#[test]
fn functions_see_the_callers_bindings() {
    let r = run("fn show() { print(x); } let x = 7; show();");
    assert!(r.result.is_ok(), "{:?}", r.result);
    assert_eq!(r.output, "7\n");
}

#[test]
fn bindings_of_a_call_do_not_leak() {
    let r = run("let x = 1; fn f() { let x = 2; let y = 3; } f(); print(x); y;");
    assert!(r.result.is_ok(), "{:?}", r.result);
    assert_eq!(r.output, "1\n");
    assert!(r.env.get("y").is_none());
}

#[test]
fn recursion_is_bounded() {
    let r = run("fn f(n) { return f(n + 1); } f(0);");
    assert_eq!(failure(&r).kind, EvalErrorKind::RecursionLimitExceeded);
}

#[test]
fn recursion_within_the_bound() {
    let r = run("fn down(n) { if n == 0 { return 0; } return down(n - 1); } print(down(10));");
    assert!(r.result.is_ok(), "{:?}", r.result);
    assert_eq!(r.output, "0\n");
}

// --- scoping ----------------------------------------------------------------

#[test]
fn new_names_of_a_block_are_dropped() {
    let r = run("let x = 1; if true { let y = 2; print(y); } print(x); print(y);");
    assert_eq!(r.output, "2\n1\n");
    assert_eq!(failure(&r).kind, EvalErrorKind::UndefinedVariable);
}

#[test]
fn rebinding_an_outer_name_in_a_block_persists() {
    let r = run("let x = 1; if true { let x = 2; } print(x);");
    assert!(r.result.is_ok());
    assert_eq!(r.output, "2\n");
}

#[test]
fn names_of_an_iteration_are_dropped_each_time() {
    let r = run("for i = 0..2 { let t = i; } print(i); print(t);");
    assert_eq!(r.output, "1\n");
    assert_eq!(failure(&r).kind, EvalErrorKind::UndefinedVariable);
}

// --- arrays and objects -----------------------------------------------------

#[test]
fn array_literals_and_indexing() {
    assert!(matches!(value_of("[1, 2, 3][0]"), Expr::Int(1)));
    assert!(matches!(value_of("[1, 2, 3,][2]"), Expr::Int(3)));
    assert!(matches!(value_of("[1, 2, 3][-1]"), Expr::Int(3)));
    assert!(matches!(value_of("[1, 2, 3][-3]"), Expr::Int(1)));
    assert_eq!(error_of("[1, 2, 3][3]").kind, EvalErrorKind::IndexOutOfBounds);
    assert_eq!(error_of("[1, 2, 3][-4]").kind, EvalErrorKind::IndexOutOfBounds);
    assert_eq!(
        error_of("[1][\"a\"]").kind,
        EvalErrorKind::TypeMismatch { operator: Operator::Index, left: Kind::Array, right: Kind::String }
    );
    assert_eq!(
        error_of("1[0]").kind,
        EvalErrorKind::TypeMismatch { operator: Operator::Index, left: Kind::Int, right: Kind::Int }
    );
}

#[test]
fn array_methods_change_the_named_array() {
    let r = run("let a = [1]; a.push(2); a.push(3); print(a.len()); print(a.pop()); print(a.len()); a.clear(); print(a.len());");
    assert!(r.result.is_ok(), "{:?}", r.result);
    assert_eq!(r.output, "3\n3\n2\n0\n");
}

#[test]
fn array_methods_do_not_change_an_unnamed_receiver() {
    let r = run("let a = [[1]]; a[0].push(2); print(a[0].len());");
    assert!(r.result.is_ok(), "{:?}", r.result);
    assert_eq!(r.output, "1\n");
}

#[test]
fn methods_of_array_literals() {
    let r = run("print([1, 2, 3].len()); print([4, 5].pop());");
    assert!(r.result.is_ok(), "{:?}", r.result);
    assert_eq!(r.output, "3\n5\n");
    let r = run("let a = [1]; let f = a.len; print(f(a)); print(f([1, 2]));");
    assert!(r.result.is_ok(), "{:?}", r.result);
    assert_eq!(r.output, "1\n2\n");
    let r = run("let a = [1]; a.len(2);");
    assert_eq!(failure(&r).kind, EvalErrorKind::ArityMismatch { too_many: true, count: 1 });
}

#[test]
fn pop_of_an_empty_array_fails() {
    let r = run("let a = [1]; a.pop(); a.pop();");
    let e = failure(&r);
    assert_eq!(e.kind, EvalErrorKind::Native);
    assert_eq!(e.message, "Cannot pop from an empty array");
}

#[test]
fn unknown_array_method() {
    let e = error_of("[1].nothing");
    assert_eq!(e.kind, EvalErrorKind::NoSuchProperty);
    assert_eq!(e.message, "no such property: nothing");
}

#[test]
fn property_of_a_number_fails() {
    let e = error_of("1.x");
    assert_eq!(
        e.kind,
        EvalErrorKind::TypeMismatch { operator: Operator::Property, left: Kind::Int, right: Kind::String }
    );
}

// --- conversions ------------------------------------------------------------

#[test]
fn type_conversion() {
    let r = run("print(str(12) + \"!\"); print(int(\"-42\") + 1); print(int(true)); print(bool(0)); print(bool(\"true\")); print(bool(null)); print(str(null)); print(str(false));");
    assert!(r.result.is_ok(), "{:?}", r.result);
    assert_eq!(r.output, "12!\n-41\n1\nfalse\ntrue\nfalse\nnull\nfalse\n");
}

#[test]
fn int_of_a_bad_string_fails() {
    let r = run("int(\"12a\");");
    assert_eq!(failure(&r).message, "Could not convert string to int: invalid digit found in string");
    let r = run("int(\"\");");
    assert_eq!(
        failure(&r).message,
        "Could not convert string to int: cannot parse integer from empty string"
    );
    let r = run("int(\"9223372036854775808\");");
    assert_eq!(
        failure(&r).message,
        "Could not convert string to int: number too large to fit in target type"
    );
    let r = run("int(\"-9223372036854775809\");");
    assert_eq!(
        failure(&r).message,
        "Could not convert string to int: number too small to fit in target type"
    );
    let r = run("print(int(\"-9223372036854775808\")); print(int(\"+7\"));");
    assert_eq!(r.output, "-9223372036854775808\n7\n");
}

#[test]
fn float_conversions_ask_the_host() {
    let r = run("print(float(2)); print(str(1.5)); print(int(2.9));");
    assert!(r.result.is_ok(), "{:?}", r.result);
    assert_eq!(r.output, "2\n1.5\n2\n");
    assert!(r.requests >= 3);
}

// --- imports ----------------------------------------------------------------

#[test]
fn import_math_as_star() {
    let r = run("import \"math\" as *; print(mul(2,3));");
    assert!(r.result.is_ok(), "{:?}", r.result);
    assert_eq!(r.output, "6\n");
}

#[test]
fn import_math_as_module() {
    let r = run("import \"math\" as m; print(m.mul(2,3));");
    assert!(r.result.is_ok(), "{:?}", r.result);
    assert_eq!(r.output, "6\n");
}

#[test]
fn import_math_by_name() {
    let r = run("import math; print(math.abs(-3), math.pow(2, 10));");
    assert!(r.result.is_ok(), "{:?}", r.result);
    assert_eq!(r.output, "31024\n");
}

#[test]
fn mul_without_import_is_undefined() {
    let r = run("mul(2,3);");
    assert_eq!(failure(&r).kind, EvalErrorKind::UndefinedFunction);
}

#[test]
fn math_with_floats_asks_the_host() {
    let r = run("import \"math\" as m; print(m.mul(1.5, 2)); print(m.div(1, 2));");
    assert!(r.result.is_ok(), "{:?}", r.result);
    assert_eq!(r.output, "3\n0.5\n");
}

#[test]
fn division_by_the_integer_zero_fails() {
    let r = run("import \"math\" as m; m.div(1, 0);");
    let e = failure(&r);
    assert_eq!(e.kind, EvalErrorKind::DivisionByZero);
    assert_eq!(e.message, "division by zero");
    assert_eq!(e.span, Span { start: 29, end: 30 });
}

#[test]
fn sandbox_withholds_os_http_and_ffi() {
    for name in ["os", "http", "ffi"] {
        let source = format!("import \"{}\" as x;", name);
        let r = run_with(&source, &[], true);
        assert_eq!(failure(&r).kind, EvalErrorKind::ImportFailed(ImportFailure::NotFound));
        let r = run_with(&source, &[], false);
        assert!(r.result.is_ok(), "{:?}", r.result);
    }
    let r = run_with("import \"math\" as x;", &[], true);
    assert!(r.result.is_ok());
}

#[test]
fn os_reports_the_platform() {
    let r = run("import \"os\" as os; print(os.name);");
    assert_eq!(r.output, "testos\n");
}

#[test]
fn unknown_package_is_not_found() {
    let r = run("import \"nothing\" as n;");
    let e = failure(&r);
    assert_eq!(e.kind, EvalErrorKind::ImportFailed(ImportFailure::NotFound));
    assert_eq!(e.message_short, "package not found");
}

#[test]
fn file_import_as_module() {
    let files = [("lib/tools.modu", "let answer = 42; fn twice(n) { return n + n; }")];
    let r = run_with("import \"lib/tools.modu\" as t; print(t.answer); print(t.twice(4));", &files, false);
    assert!(r.result.is_ok(), "{:?}", r.result);
    assert_eq!(r.output, "42\n8\n");
    assert!(r.env.get("answer").is_none());
}

#[test]
fn file_import_as_star_takes_only_what_the_file_defined() {
    let files = [("tools.modu", "let answer = 42;")];
    let r = run_with("import \"tools.modu\" as *; print(answer);", &files, false);
    assert!(r.result.is_ok(), "{:?}", r.result);
    assert_eq!(r.output, "42\n");
    assert!(r.env.get("CURRENTLY_PARSING_MODULE_PATH").is_none());
    assert_eq!(r.env.len(), create_context().len() + 1);
}

#[test]
fn file_import_without_alias_binds_the_file_name() {
    let files = [("tools.modu", "let answer = 42;")];
    let r = run_with("import \"tools.modu\"; print(tools.answer);", &files, false);
    assert!(r.result.is_ok(), "{:?}", r.result);
    assert_eq!(r.output, "42\n");
}

#[test]
fn nested_imports_resolve_against_the_importing_file() {
    let files = [
        ("lib/outer.modu", "import \"inner.modu\" as inner; let x = inner.y;"),
        ("lib/inner.modu", "let y = 5;"),
    ];
    let r = run_with("import \"lib/outer.modu\" as o; print(o.x);", &files, false);
    assert!(r.result.is_ok(), "{:?}", r.result);
    assert_eq!(r.output, "5\n");
}

#[test]
fn missing_file_is_unreadable() {
    let r = run("import \"gone.modu\" as g;");
    let e = failure(&r);
    assert_eq!(e.kind, EvalErrorKind::ImportFailed(ImportFailure::Unreadable));
    assert_eq!(e.message_short, "failed to read module");
}

#[test]
fn file_that_does_not_parse_fails_the_import() {
    let files = [("bad.modu", "let = ;")];
    let r = run_with("import \"bad.modu\" as b;", &files, false);
    assert_eq!(failure(&r).kind, EvalErrorKind::ImportFailed(ImportFailure::ParseFailed));
}

#[test]
fn installed_package_is_loaded_from_its_directory() {
    let files = [
        (".modu/packages/greeter/lib.modu", "import \"words.modu\" as w; let word = w.hello; fn greet() { return \"hi!\"; }"),
        (".modu/packages/greeter/words.modu", "let hello = \"hi\";"),
    ];
    let r = run_with("import \"greeter\" as g; print(g.greet(), g.word);", &files, false);
    assert!(r.result.is_ok(), "{:?}", r.result);
    assert_eq!(r.output, "hi!hi\n");
}

// --- the host ---------------------------------------------------------------

#[test]
fn input_is_answered_by_the_host() {
    let r = run("let name = input(\"who? \"); print(name);");
    assert!(r.result.is_ok(), "{:?}", r.result);
    assert_eq!(r.output, "typed\n");
    assert_eq!(r.requests, 1);
}

#[test]
fn functions_of_the_host_are_registered() {
    let mut env = create_context();
    modu::utils::register(&mut env, "double", vec!["n".to_string()], 41);
    let mut session = Session::new("", "testos", false, 100);
    let r = parse("print(double(4));", &mut env, &mut session, 16);
    match r {
        Err(Diagnostic::Eval(e)) => assert_eq!(e.kind, EvalErrorKind::Suspended),
        other => panic!("{:?}", other),
    }
    match session.pending.take() {
        Some(Request::Native { func: Native::Host(41), args }) => {
            assert_eq!(args.len(), 1);
            assert!(matches!(args[0].node, Expr::Int(4)));
        }
        other => panic!("{:?}", other),
    }
    session.answer(Answer::Value(Expr::Int(8)), 100);
    let r = parse("print(double(4));", &mut env, &mut session, 16);
    assert!(r.is_ok(), "{:?}", r);
    assert_eq!(written(&session.output), "8\n");

    let mut session = Session::new("", "testos", false, 100);
    let r = parse("double(1, 2);", &mut env, &mut session, 16);
    match r {
        Err(Diagnostic::Eval(e)) => assert_eq!(e.kind, EvalErrorKind::ArityMismatch { too_many: true, count: 1 }),
        other => panic!("{:?}", other),
    }
}

#[test]
fn without_an_answer_the_evaluation_is_suspended() {
    let mut env = create_context();
    let mut session = Session::new("", "testos", false, 100);
    let r = parse("print(1); let x = input(); print(2);", &mut env, &mut session, 16);
    match r {
        Err(Diagnostic::Eval(e)) => assert_eq!(e.kind, EvalErrorKind::Suspended),
        other => panic!("{:?}", other),
    }
    assert_eq!(written(&session.output), "1\n");
    assert!(matches!(session.pending, Some(Request::Native { func: Native::Input, .. })));

    session.answer(Answer::Value(Expr::String("a".to_string())), 100);
    let mut env = create_context();
    let r = parse("print(1); let x = input(); print(2);", &mut env, &mut session, 16);
    assert!(r.is_ok());
    assert_eq!(written(&session.output), "1\n2\n");
    assert_eq!(session.output.len(), 2);
    assert_eq!(session.cursor, 1);
    assert!(session.pending.is_none());
}

#[test]
fn a_failure_of_the_host_is_an_error() {
    let mut env = create_context();
    let mut session = Session::new("", "testos", false, 100);
    session.answers.push(Answer::Failure("no terminal".to_string()));
    let r = parse("input();", &mut env, &mut session, 16);
    match r {
        Err(Diagnostic::Eval(e)) => {
            assert_eq!(e.kind, EvalErrorKind::Native);
            assert_eq!(e.message, "no terminal");
        }
        other => panic!("{:?}", other),
    }
}

#[test]
fn an_answer_of_the_wrong_kind_is_refused() {
    let mut env = create_context();
    let mut session = Session::new("", "testos", false, 100);
    session.answers.push(Answer::Value(Expr::Int(1)));
    let r = parse("let x = 1.5;", &mut env, &mut session, 16);
    match r {
        Err(Diagnostic::Eval(e)) => assert_eq!(e.kind, EvalErrorKind::BadAnswer),
        other => panic!("{:?}", other),
    }
}

#[test]
fn calls_through_a_native_library() {
    let mut env = create_context();
    env.insert("lib".to_string(), Expr::FFILibrary(modu::ast::LibraryHandle { id: 7 }));
    let mut session = Session::new("", "testos", false, 100);
    let r = parse("let x = lib.add(1, \"a\", null, true);", &mut env, &mut session, 16);
    match r {
        Err(Diagnostic::Eval(e)) => assert_eq!(e.kind, EvalErrorKind::Suspended),
        other => panic!("{:?}", other),
    }
    match &session.pending {
        Some(Request::Ffi { library, symbol, args }) => {
            assert_eq!(library.id, 7);
            assert_eq!(symbol, "add");
            assert_eq!(args.len(), 4);
            assert!(matches!(args[0], modu::session::FFIArgument::Integer(1)));
            assert!(matches!(&args[1], modu::session::FFIArgument::String(s) if s == "a"));
            assert!(matches!(args[2], modu::session::FFIArgument::Null));
            assert!(matches!(args[3], modu::session::FFIArgument::Boolean(true)));
        }
        other => panic!("{:?}", other),
    }
}

#[test]
fn arrays_cannot_cross_to_native_code() {
    let mut env = create_context();
    env.insert("lib".to_string(), Expr::FFILibrary(modu::ast::LibraryHandle { id: 7 }));
    let mut session = Session::new("", "testos", false, 100);
    let r = parse("lib.add([1]);", &mut env, &mut session, 16);
    match r {
        Err(Diagnostic::Eval(e)) => {
            assert_eq!(e.kind, EvalErrorKind::FFIError);
            assert_eq!(e.message, "native call failed: Unsupported argument type for FFI call");
        }
        other => panic!("{:?}", other),
    }
}

#[test]
fn integers_are_cut_to_32_bits_on_the_way_to_native_code() {
    let args = vec![SpannedExpr::new(Expr::Int(4294967297), Span::new(0, 1))];
    let out = modu::evaluator::marshal(&args).unwrap();
    assert!(matches!(out[0], modu::session::FFIArgument::Integer(1)));
}

// --- whole programs ---------------------------------------------------------

#[test]
fn basic_print() {
    let r = run("print(\"Hello, world!\");\nprint(1, \" \", true);\n// done\n");
    assert!(r.result.is_ok(), "{:?}", r.result);
    assert_eq!(r.output, "Hello, world!\n1 true\n");
}

#[test]
fn nesting_funcs() {
    let r = run(
        "fn inner(a) { return a + 1; }\n\
         fn middle(a) { return inner(inner(a)); }\n\
         fn outer(a, b) { if a < b { return middle(a); } else { return middle(b); } }\n\
         print(outer(1, 5));\nprint(outer(9, 5));\nprint(str(outer(0, 0)) + \"!\");",
    );
    assert!(r.result.is_ok(), "{:?}", r.result);
    assert_eq!(r.output, "3\n7\n2!\n");
}

#[test]
fn loops() {
    let r = run(
        "let total = 0;\n\
         for i = 1..=4 { let total = total + i; }\n\
         print(total);\n\
         let n = 0;\n\
         loop { let n = n + 1; if n >= 3 { break; } }\n\
         print(n);\n\
         for i = 0..3 { for j = 0..3 { if j > i { break; } if i == 1 { continue; } print(i, j); } }",
    );
    assert!(r.result.is_ok(), "{:?}", r.result);
    assert_eq!(r.output, "10\n3\n00\n20\n21\n22\n");
}

#[test]
fn encoding() {
    let r = run(
        "import \"encoding\" as e;\n\
         print(e.encode_base64(\"hello\"));\n\
         print(e.decode_base64(e.encode_base64(\"hello\")));\n\
         print(e.encode_base16(\"hello\"));\n\
         print(e.decode_base16(\"68656c6c6f\"));",
    );
    assert!(r.result.is_ok(), "{:?}", r.result);
    assert_eq!(r.output, "aGVsbG8=\nhello\n68656c6c6f\nhello\n");
    assert_eq!(r.requests, 0);
    let r = run("import \"encoding\" as e; e.decode_base64(\"***\");");
    let e = failure(&r);
    assert_eq!(e.kind, EvalErrorKind::Native);
    assert!(e.message.starts_with("Failed to decode base64 string: "));
}

#[test]
fn crypto() {
    let r = run(
        "import \"crypto\" as c;\n\
         print(c.sha256(\"abc\"));\n\
         print(c.legacy.md5(\"abc\"));\n\
         print(c.blake3(\"abc\") == c.blake3(\"abc\"));\n\
         print(c.sha512(\"abc\") == c.sha256(\"abc\"));",
    );
    assert!(r.result.is_ok(), "{:?}", r.result);
    assert_eq!(
        r.output,
        "ba7816bf8f01cfea414140de5dae2223b00361a396177a9cb410ff61f20015ad\n\
         900150983cd24fb0d6963f7d28e17f72\ntrue\nfalse\n"
    );
    assert_eq!(r.requests, 0);
    let r = run("import \"crypto\" as c; c.sha256(1);");
    assert_eq!(failure(&r).message, "sha256 expects a string argument");
}

#[test]
fn time_of_the_epoch() {
    let r = run("import \"time\" as t; print(t.to_utc_date_time(0));");
    assert!(r.result.is_ok(), "{:?}", r.result);
    assert_eq!(r.output, "Thu Jan  1 00:00:00 1970\n");
}

// --- diagnostics ------------------------------------------------------------

#[test]
fn a_source_that_is_no_tokens_does_not_run() {
    let r = run("print(1); let x = #;");
    match r.result {
        Err(Diagnostic::Lex(modu::lexer::LexingError::UnexpectedToken, span)) => {
            assert_eq!(span, Span { start: 18, end: 19 })
        }
        other => panic!("{:?}", other),
    }
    assert_eq!(r.output, "");
    let r = run("let x = 99999999999999999999;");
    assert!(matches!(r.result, Err(Diagnostic::Lex(modu::lexer::LexingError::InvalidInteger(_), _))));
}

#[test]
fn tokens_that_are_no_statements_do_not_run() {
    let r = run("print(1); let = 2;");
    match r.result {
        Err(Diagnostic::Syntax(e)) => {
            assert_eq!(e.expected, modu::grammar::Expected::Identifier);
            assert_eq!(e.span, Span { start: 14, end: 15 });
        }
        other => panic!("{:?}", other),
    }
    assert_eq!(r.output, "");
}

#[test]
fn failures_are_put_into_words() {
    let r = run("let x = #;");
    assert_eq!(r.result.unwrap_err().report(), ("unexpected token".to_string(), Span { start: 8, end: 9 }));
    let r = run("let x = 99999999999999999999;");
    assert_eq!(
        r.result.unwrap_err().report(),
        ("invalid integer: Integer overflow".to_string(), Span { start: 8, end: 28 })
    );
    let r = run("let = 2;");
    assert_eq!(
        r.result.unwrap_err().report(),
        ("expected a name, found '='".to_string(), Span { start: 4, end: 5 })
    );
    let r = run("print(\"a\" 12);");
    assert_eq!(
        r.result.unwrap_err().report(),
        ("expected ',' or ')', found '12'".to_string(), Span { start: 10, end: 12 })
    );
    let r = run("f(");
    assert_eq!(
        r.result.unwrap_err().report(),
        ("expected an expression, found end of input".to_string(), Span { start: 2, end: 2 })
    );
    let r = run("return;");
    assert_eq!(
        r.result.unwrap_err().report(),
        ("'return' cannot stand at the top level".to_string(), Span { start: 0, end: 7 })
    );
    let r = run("print(y);");
    assert_eq!(r.result.unwrap_err().report(), ("not defined: y".to_string(), Span { start: 6, end: 7 }));
}

#[test]
fn offsets_have_lines_and_columns() {
    let source = "ab\ncd\n\nef";
    assert_eq!(modu::diagnostics::position(source, 0), (0, 0));
    assert_eq!(modu::diagnostics::position(source, 2), (0, 2));
    assert_eq!(modu::diagnostics::position(source, 3), (1, 0));
    assert_eq!(modu::diagnostics::position(source, 4), (1, 1));
    assert_eq!(modu::diagnostics::position(source, 7), (3, 0));
    assert_eq!(modu::diagnostics::position(source, 9), (3, 2));
    assert_eq!(modu::diagnostics::position(source, 100), (3, 2));
    assert_eq!(modu::diagnostics::position("", 0), (0, 0));
}

#[test]
fn the_first_failure_ends_the_run() {
    let r = run("print(1); print(missing); print(2);");
    assert_eq!(failure(&r).kind, EvalErrorKind::UndefinedVariable);
    assert_eq!(r.output, "1\n");
}

// --- evaluating twice -------------------------------------------------------

#[test]
fn evaluating_twice_from_the_same_environment_gives_the_same() {
    let tokens = modu::lexer::tokenize("1 + 2 - 3 == 0").unwrap();
    let (expr, _) = modu::parser::parse_expr(&tokens, 0).unwrap();
    let mut first_env = create_context();
    let mut second_env = create_context();
    let mut s1 = Session::new("", "testos", false, 100);
    let mut s2 = Session::new("", "testos", false, 100);
    let a = eval(&expr, &mut first_env, &mut s1, 16).unwrap();
    let b = eval(&expr, &mut second_env, &mut s2, 16).unwrap();
    assert!(matches!(a, Flow::Continue(Expr::Bool(true))));
    assert!(matches!(b, Flow::Continue(Expr::Bool(true))));
    assert_eq!(first_env.len(), second_env.len());
    let c = eval(&expr, &mut first_env, &mut s1, 16).unwrap();
    assert!(matches!(c, Flow::Continue(Expr::Bool(true))));
}
