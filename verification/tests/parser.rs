use modu::ast::{BinaryOp, Expr, Span, SpannedExpr};
use modu::grammar::{Expected, ParseError};
use modu::lexer::{tokenize, Token};
use modu::parser::{parse_expr, parse_program, parse_statement, same_token};

fn expression(source: &str) -> SpannedExpr {
    let tokens = tokenize(source).unwrap();
    let (e, next) = parse_expr(&tokens, 0).unwrap();
    assert_eq!(next, tokens.len(), "{:?}", e);
    e
}

fn program(source: &str) -> Vec<SpannedExpr> {
    parse_program(&tokenize(source).unwrap()).unwrap()
}

fn failure(source: &str) -> ParseError {
    parse_program(&tokenize(source).unwrap()).unwrap_err()
}

fn shape(e: &SpannedExpr) -> String {
    match &e.node {
        Expr::Int(n) => n.to_string(),
        Expr::FloatLiteral(s) => s.clone(),
        Expr::String(s) => format!("{:?}", s),
        Expr::Bool(b) => b.to_string(),
        Expr::Null => "null".to_string(),
        Expr::Break => "break".to_string(),
        Expr::Continue => "continue".to_string(),
        Expr::Identifier(s) => s.clone(),
        Expr::Neg(x) => format!("(-{})", shape(x)),
        Expr::Binary { op, left, right } => {
            let sign = match op {
                BinaryOp::Add => "+",
                BinaryOp::Sub => "-",
                BinaryOp::Equal => "==",
                BinaryOp::NotEqual => "!=",
                BinaryOp::LessThan => "<",
                BinaryOp::LessThanOrEqual => "<=",
                BinaryOp::GreaterThan => ">",
                BinaryOp::GreaterThanOrEqual => ">=",
            };
            format!("({} {} {})", shape(left), sign, shape(right))
        }
        Expr::Range { start, end, inclusive } => {
            format!("({}{}{})", shape(start), if *inclusive { "..=" } else { ".." }, shape(end))
        }
        Expr::PropertyAccess { object, property } => format!("{}.{}", shape(object), property),
        Expr::IndexAccess { object, index } => format!("{}[{}]", shape(object), shape(index)),
        Expr::Call { callee, args } => {
            format!("{}({})", shape(callee), args.iter().map(shape).collect::<Vec<_>>().join(", "))
        }
        Expr::Array(items) => format!("[{}]", items.iter().map(shape).collect::<Vec<_>>().join(", ")),
        Expr::Block(stmts) => format!("{{{}}}", stmts.iter().map(shape).collect::<Vec<_>>().join("; ")),
        Expr::Let { name, value } => format!("let {} = {}", name, shape(value)),
        Expr::Return(v) => format!("return {}", shape(v)),
        Expr::If { condition, then_branch, else_branch } => match else_branch {
            Some(e) => format!("if {} {} else {}", shape(condition), shape(then_branch), shape(e)),
            None => format!("if {} {}", shape(condition), shape(then_branch)),
        },
        Expr::InfiniteLoop { body } => format!("loop {}", shape(body)),
        Expr::ForLoop { iterator_name, iterator_range, body } => {
            format!("for {} = {} {}", iterator_name, shape(iterator_range), shape(body))
        }
        Expr::Function { name, args, body } => format!("fn {}({}) {}", name, args.join(", "), shape(body)),
        Expr::Import { name, import_as } => format!("import {} as {:?}", name, import_as),
        other => format!("{:?}", other),
    }
}

#[test]
fn additive_chains_fold_to_the_left() {
    assert_eq!(shape(&expression("10 - 3 - 2")), "((10 - 3) - 2)");
    assert_eq!(shape(&expression("1 - 2 + 3 - 4")), "(((1 - 2) + 3) - 4)");
    assert_eq!(shape(&expression("1 - (2 + 3)")), "(1 - (2 + 3))");
}

#[test]
fn comparisons_bind_loosest() {
    assert_eq!(shape(&expression("1 + 2 == 4 - 1")), "((1 + 2) == (4 - 1))");
    assert_eq!(shape(&expression("a < b == c")), "((a < b) == c)");
    assert_eq!(shape(&expression("a != b >= c <= d > e")), "((((a != b) >= c) <= d) > e)");
}

#[test]
fn ranges_stand_between_sums_and_comparisons() {
    assert_eq!(shape(&expression("0..n + 1")), "(0..(n + 1))");
    assert_eq!(shape(&expression("a - 1..=b")), "((a - 1)..=b)");
    assert_eq!(shape(&expression("0..3 == x")), "((0..3) == x)");
}

#[test]
fn unary_minus_nests() {
    assert_eq!(shape(&expression("--x")), "(-(-x))");
    assert_eq!(shape(&expression("-a.b")), "(-a.b)");
    assert_eq!(shape(&expression("1 - -2")), "(1 - (-2))");
}

#[test]
fn postfix_chains_fold_to_the_left() {
    let e = expression("a.b.c()[0]");
    assert_eq!(shape(&e), "a.b.c()[0]");
    assert_eq!(e.span, Span::new(0, 10));
    match &e.node {
        Expr::IndexAccess { object, index } => {
            assert_eq!(object.span, Span::new(0, 7));
            assert_eq!(index.span, Span::new(8, 9));
            match &object.node {
                Expr::Call { callee, args } => {
                    assert!(args.is_empty());
                    assert_eq!(callee.span, Span::new(0, 5));
                    match &callee.node {
                        Expr::PropertyAccess { object, property } => {
                            assert_eq!(property, "c");
                            assert_eq!(object.span, Span::new(0, 3));
                        }
                        other => panic!("{:?}", other),
                    }
                }
                other => panic!("{:?}", other),
            }
        }
        other => panic!("{:?}", other),
    }
}

#[test]
fn calls_take_arguments() {
    assert_eq!(shape(&expression("f(1, a + 2, g())")), "f(1, (a + 2), g())");
    assert_eq!(shape(&expression("f()()")), "f()()");
}

#[test]
fn spans_cover_the_whole_expression() {
    let e = expression("  10 -  3");
    assert_eq!(e.span, Span::new(2, 9));
    let e = expression("(1 + 2)");
    assert_eq!(e.span, Span::new(0, 7));
    assert_eq!(shape(&e), "(1 + 2)");
    let e = expression("-x");
    assert_eq!(e.span, Span::new(0, 2));
    let e = expression("[1, 2]");
    assert_eq!(e.span, Span::new(0, 6));
}

#[test]
fn arrays_take_a_trailing_comma() {
    assert_eq!(shape(&expression("[1, 2, 3]")), "[1, 2, 3]");
    assert_eq!(shape(&expression("[1, 2, 3,]")), "[1, 2, 3]");
    assert_eq!(shape(&expression("[[1], [2, 3]]")), "[[1], [2, 3]]");
    let e = failure("[1 2];");
    assert_eq!(e.expected, Expected::CommaOrRSquareBracket);
    assert!(matches!(e.found, Some(Token::Integer(2))));
    let e = failure("[];");
    assert_eq!(e.expected, Expected::Expression);
}

#[test]
fn statements() {
    let p = program(
        "let x = 1; fn f(a, b) { return a; } loop { break; } for i = 0..3 { continue; } \
         if x { } else { } import \"math\" as m; import tools; import \"a.modu\" as *; { x; } f(1, 2); return; return 1;",
    );
    let shapes: Vec<String> = p.iter().map(shape).collect();
    assert_eq!(
        shapes,
        [
            "let x = 1",
            "fn f(a, b) {return a}",
            "loop {break}",
            "for i = (0..3) {continue}",
            "if x {} else {}",
            "import math as Some(\"m\")",
            "import tools as None",
            "import a.modu as Some(\"*\")",
            "{x}",
            "f(1, 2)",
            "return null",
            "return 1",
        ]
    );
}

#[test]
fn statement_spans() {
    let p = program("let x = 1;  fn f() { }");
    assert_eq!(p[0].span, Span::new(0, 10));
    assert_eq!(p[1].span, Span::new(12, 22));
    let p = program("f(1);");
    assert_eq!(p[0].span, Span::new(0, 4));
    let p = program("if a { } else { b; }");
    assert_eq!(p[0].span, Span::new(0, 20));
}

#[test]
fn expected_and_found() {
    let e = failure("let = 1;");
    assert_eq!(e.expected, Expected::Identifier);
    assert!(matches!(e.found, Some(Token::Assign)));
    assert_eq!(e.span, Span::new(4, 5));

    let e = failure("let x 1;");
    assert_eq!(e.expected, Expected::Assign);
    assert!(matches!(e.found, Some(Token::Integer(1))));

    let e = failure("let x = 1");
    assert_eq!(e.expected, Expected::Semicolon);
    assert!(e.found.is_none());
    assert_eq!(e.span, Span::new(9, 9));

    let e = failure("let x = ;");
    assert_eq!(e.expected, Expected::Expression);
    assert!(matches!(e.found, Some(Token::Semicolon)));

    let e = failure("f(1 2);");
    assert_eq!(e.expected, Expected::CommaOrRParen);
    let e = failure("f(1,);");
    assert_eq!(e.expected, Expected::Expression);
    let e = failure("a[1;");
    assert_eq!(e.expected, Expected::RSquareBracket);
    let e = failure("(1;");
    assert_eq!(e.expected, Expected::RParen);
    let e = failure("a.1;");
    assert_eq!(e.expected, Expected::Identifier);
    let e = failure("fn f { }");
    assert_eq!(e.expected, Expected::LParen);
    let e = failure("fn f(a b) { }");
    assert_eq!(e.expected, Expected::CommaOrRParen);
    let e = failure("loop x");
    assert_eq!(e.expected, Expected::LBracket);
    let e = failure("if x { y; ");
    assert_eq!(e.expected, Expected::StatementOrRBracket);
    assert!(e.found.is_none());
    let e = failure("import 1;");
    assert_eq!(e.expected, Expected::ModuleName);
    let e = failure("import a as 1;");
    assert_eq!(e.expected, Expected::Alias);
    let e = failure("x = 3;");
    assert_eq!(e.expected, Expected::Semicolon);
    assert!(matches!(e.found, Some(Token::Assign)));
}

#[test]
fn empty_program() {
    assert!(program("").is_empty());
    assert!(program(" // nothing\n").is_empty());
    let e = parse_statement(&vec![], 0).unwrap_err();
    assert_eq!(e.expected, Expected::Expression);
    assert_eq!(e.span, Span::new(0, 0));
}

#[test]
fn tokens_compare_with_their_payload() {
    assert!(same_token(&Token::Let, &Token::Let));
    assert!(!same_token(&Token::Let, &Token::Fn));
    assert!(same_token(&Token::Identifer("a".to_string()), &Token::Identifer("a".to_string())));
    assert!(!same_token(&Token::Identifer("a".to_string()), &Token::Identifer("b".to_string())));
    assert!(!same_token(&Token::Identifer("a".to_string()), &Token::String("a".to_string())));
    assert!(same_token(&Token::Integer(3), &Token::Integer(3)));
    assert!(!same_token(&Token::Boolean(true), &Token::Boolean(false)));
}
