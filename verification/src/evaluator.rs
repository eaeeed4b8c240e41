//! The evaluator: a recursive walk over the tree, each function proved to
//! compute what the semantics define.

use crate::ast::{copy_nodes, names_view, nodes_view, BinaryOp, Binding, Expr, ExprView, InternalFunctionResponse, LibraryHandle, Native, Span, SpannedExpr, SpannedView};
use crate::environment::{names_contain, Environment};
use crate::grammar::ParseError;
use crate::lexer::{tokenize, LexingError};
use crate::libraries::get_package;
use crate::parser::parse_program;
use crate::semantics;
use crate::semantics::{
    eval_spec, eval_unfolds, DiagnosticView, Outcome, TopLevel, World,
};
use crate::session::{arguments_view, Answer, FFIArgument, FFIArgumentView, FloatOp, Request, Session, Piece};
use crate::text::{directory, has_suffix, joined, same_text, without_last};
use crate::utils::create_context;
use crate::values::{kind, Escape, EvalError, EvalErrorKind, EvalErrorView, Flow, FlowView, ImportFailure, Kind, Operator};
use vstd::prelude::*;

verus! {

/// The model of an executable result.
pub open spec fn result_view(r: Result<Flow, EvalError>) -> Result<FlowView, EvalErrorView> {
    match r {
        Ok(flow) => Ok(flow@),
        Err(e) => Err(e@),
    }
}

/// The world that an environment and a session make.
pub open spec fn world(context: Environment, session: Session) -> World {
    World { env: context@, session: session@ }
}

/// Whether the result `r` with the environment and session that the
/// evaluation left is the outcome `o`.
pub open spec fn is_outcome(
    r: Result<Flow, EvalError>,
    context: Environment,
    session: Session,
    o: Outcome,
) -> bool {
    o == (result_view(r), world(context, session))
}

fn finish(v: Expr) -> (r: Result<Flow, EvalError>)
    ensures
        result_view(r) == Ok::<FlowView, EvalErrorView>(FlowView::Continue(v@)),
{
    Ok(Flow::Continue(v))
}

fn raise(kind: EvalErrorKind, detail: &str, span: Span) -> (r: Result<Flow, EvalError>)
    ensures
        result_view(r) == Err::<FlowView, EvalErrorView>(crate::values::error(kind, detail@, span)),
{
    Err(EvalError::new(kind, detail, span))
}

// ---------------------------------------------------------------------------
// Operators
// ---------------------------------------------------------------------------

fn comparison_check(op: BinaryOp) -> (r: bool)
    ensures
        r == semantics::is_comparison(op),
{
    match op {
        BinaryOp::Add => false,
        BinaryOp::Sub => false,
        _ => true,
    }
}

fn float_fits(op: FloatOp, v: &Expr) -> (r: bool)
    ensures
        r == semantics::float_answer_fits(op, v@),
{
    let wants_bool = match op {
        FloatOp::Binary(b) => comparison_check(b),
        _ => false,
    };
    match v {
        Expr::Bool(_) => wants_bool,
        Expr::Float(_) => !wants_bool,
        _ => false,
    }
}

/// Asks the host for the result of an operation on floating-point numbers.
pub fn float_result(
    op: FloatOp,
    l: Expr,
    r: Expr,
    span: Span,
    context: &Environment,
    session: &mut Session,
) -> (out: Result<Flow, EvalError>)
    ensures
        is_outcome(
            out,
            *context,
            *final(session),
            semantics::float_result(op, l@, r@, span, world(*context, *old(session))),
        ),
        final(session).steps == old(session).steps,
{
    match session.ask(Request::Float { op, left: l, right: r }, span) {
        Err(e) => Err(e),
        Ok(Answer::Failure(text)) => Err(EvalError::native(text, span)),
        Ok(Answer::Value(v)) => if float_fits(op, &v) {
            finish(v)
        } else {
            raise(EvalErrorKind::BadAnswer, "", span)
        },
    }
}

fn integers(op: BinaryOp, a: i64, b: i64) -> (r: Expr)
    ensures
        r@ == semantics::apply_integers(op, a, b),
{
    match op {
        BinaryOp::Add => Expr::Int(a.wrapping_add(b)),
        BinaryOp::Sub => Expr::Int(a.wrapping_sub(b)),
        BinaryOp::Equal => Expr::Bool(a == b),
        BinaryOp::NotEqual => Expr::Bool(a != b),
        BinaryOp::LessThan => Expr::Bool(a < b),
        BinaryOp::LessThanOrEqual => Expr::Bool(a <= b),
        BinaryOp::GreaterThan => Expr::Bool(a > b),
        BinaryOp::GreaterThanOrEqual => Expr::Bool(a >= b),
    }
}

/// What a binary operator makes of two values, in executable form.
enum AppliedValue {
    Value(Expr),
    Mismatch,
    Float,
}

impl AppliedValue {
    spec fn view(self) -> semantics::Applied {
        match self {
            AppliedValue::Value(v) => semantics::Applied::Value(v@),
            AppliedValue::Mismatch => semantics::Applied::Mismatch,
            AppliedValue::Float => semantics::Applied::Float,
        }
    }
}

fn equality(op: BinaryOp, same: bool) -> (r: AppliedValue)
    ensures
        r.view() == semantics::apply_equality(op, same),
{
    match op {
        BinaryOp::Equal => AppliedValue::Value(Expr::Bool(same)),
        BinaryOp::NotEqual => AppliedValue::Value(Expr::Bool(!same)),
        _ => AppliedValue::Mismatch,
    }
}

fn apply(op: BinaryOp, l: &Expr, r: &Expr) -> (out: AppliedValue)
    ensures
        out.view() == semantics::apply(op, l@, r@),
{
    match (l, r) {
        (Expr::Int(a), Expr::Int(b)) => AppliedValue::Value(integers(op, *a, *b)),
        (Expr::Float(_), Expr::Float(_)) => AppliedValue::Float,
        (Expr::Int(_), Expr::Float(_)) => AppliedValue::Float,
        (Expr::Float(_), Expr::Int(_)) => AppliedValue::Float,
        (Expr::String(a), Expr::String(b)) => match op {
            BinaryOp::Add => AppliedValue::Value(Expr::String(joined(a.as_str(), b.as_str()))),
            _ => equality(op, same_text(a.as_str(), b.as_str())),
        },
        (Expr::Bool(a), Expr::Bool(b)) => equality(op, *a == *b),
        (Expr::Null, Expr::Null) => equality(op, true),
        _ => equality(op, false),
    }
}

/// Applies a binary operator to two values.
pub fn finish_binary(
    op: BinaryOp,
    l: Expr,
    r: Expr,
    span: Span,
    context: &Environment,
    session: &mut Session,
) -> (out: Result<Flow, EvalError>)
    ensures
        is_outcome(
            out,
            *context,
            *final(session),
            semantics::finish_binary(op, l@, r@, span, world(*context, *old(session))),
        ),
        final(session).steps == old(session).steps,
{
    match apply(op, &l, &r) {
        AppliedValue::Value(v) => finish(v),
        AppliedValue::Mismatch => raise(
            EvalErrorKind::TypeMismatch {
                operator: Operator::Binary(op),
                left: kind(&l),
                right: kind(&r),
            },
            "",
            span,
        ),
        AppliedValue::Float => float_result(FloatOp::Binary(op), l, r, span, context, session),
    }
}

/// Applies unary minus to a value.
pub fn finish_negate(v: Expr, span: Span, context: &Environment, session: &mut Session) -> (out:
    Result<Flow, EvalError>)
    ensures
        is_outcome(
            out,
            *context,
            *final(session),
            semantics::finish_negate(v@, span, world(*context, *old(session))),
        ),
        final(session).steps == old(session).steps,
{
    match &v {
        Expr::Int(n) => {
            let zero: i64 = 0;
            finish(Expr::Int(zero.wrapping_sub(*n)))
        },
        Expr::Float(_) => float_result(FloatOp::Negate, v, Expr::Null, span, context, session),
        _ => raise(
            EvalErrorKind::TypeMismatch {
                operator: Operator::Negate,
                left: kind(&v),
                right: Kind::Null,
            },
            "",
            span,
        ),
    }
}

/// The property `property` of the value `object`.
pub fn property_of(object: Expr, property: &str) -> (r: Result<Expr, EvalErrorKind>)
    ensures
        match r {
            Ok(v) => semantics::property_of(object@, property@) == Ok::<ExprView, EvalErrorKind>(v@),
            Err(k) => semantics::property_of(object@, property@) == Err::<ExprView, EvalErrorKind>(k),
        },
{
    match object {
        Expr::Module { symbols } => {
            let table = Environment { entries: symbols };
            match table.get(property) {
                Some(v) => Ok(v),
                None => Err(EvalErrorKind::NoSuchProperty),
            }
        },
        Expr::Object { properties } => {
            let table = Environment { entries: properties };
            match table.get(property) {
                Some(v) => Ok(v),
                None => match crate::builtins::object::get_fn(property) {
                    Some(m) => Ok(m),
                    None => Err(EvalErrorKind::NoSuchProperty),
                },
            }
        },
        Expr::Array(items) => match crate::builtins::array::get_fn(property) {
            Some(m) => Ok(m),
            None => Err(EvalErrorKind::NoSuchProperty),
        },
        Expr::FFILibrary(h) => Ok(Expr::FFILibrary(h)),
        other => Err(
            EvalErrorKind::TypeMismatch {
                operator: Operator::Property,
                left: kind(&other),
                right: Kind::String,
            },
        ),
    }
}

/// The item of `object` that `index` selects.
pub fn index_of(object: Expr, index: Expr) -> (r: Result<Expr, EvalErrorKind>)
    ensures
        match r {
            Ok(v) => semantics::index_of(object@, index@) == Ok::<ExprView, EvalErrorKind>(v@),
            Err(k) => semantics::index_of(object@, index@) == Err::<ExprView, EvalErrorKind>(k),
        },
{
    match (&object, &index) {
        (Expr::Array(items), Expr::Int(i)) => {
            let n: i128 = items.len() as i128;
            let at: i128 = if *i < 0 {
                n + (*i as i128)
            } else {
                *i as i128
            };
            if 0 <= at && at < n {
                let k = at as usize;
                assert(nodes_view(items@)[k as int] == items@[k as int]@);
                Ok(items[k].node.copy())
            } else {
                Err(EvalErrorKind::IndexOutOfBounds)
            }
        },
        (Expr::Object { properties }, Expr::String(key)) => {
            let table = Environment { entries: crate::ast::copy_bindings(properties) };
            match table.get(key.as_str()) {
                Some(v) => Ok(v),
                None => Err(EvalErrorKind::NoSuchProperty),
            }
        },
        _ => Err(
            EvalErrorKind::TypeMismatch {
                operator: Operator::Index,
                left: kind(&object),
                right: kind(&index),
            },
        ),
    }
}

// ---------------------------------------------------------------------------
// Calls
// ---------------------------------------------------------------------------

fn variadic(formal: &Vec<String>) -> (r: bool)
    ensures
        r == semantics::variadic(names_view(formal@)),
{
    formal.len() > 0 && same_text(formal[formal.len() - 1].as_str(), "__args__")
}

/// The arity error of a call, if the numbers of parameters and arguments
/// differ.
pub fn arity_error(formal: usize, actuals: &Vec<SpannedExpr>, call: Span) -> (r: Option<EvalError>)
    ensures
        match r {
            Some(e) => semantics::arity_error(formal as int, nodes_view(actuals@), call) == Some(e@),
            None => semantics::arity_error(formal as int, nodes_view(actuals@), call) is None,
        },
{
    if actuals.len() > formal {
        let span = Span {
            start: actuals[formal].span.start,
            end: actuals[actuals.len() - 1].span.end,
        };
        assert(nodes_view(actuals@)[formal as int] == actuals@[formal as int]@);
        assert(nodes_view(actuals@)[actuals@.len() - 1] == actuals@[actuals@.len() - 1]@);
        Some(
            EvalError::new(
                EvalErrorKind::ArityMismatch { too_many: true, count: actuals.len() - formal },
                "",
                span,
            ),
        )
    } else if actuals.len() < formal {
        Some(
            EvalError::new(
                EvalErrorKind::ArityMismatch { too_many: false, count: formal - actuals.len() },
                "",
                call,
            ),
        )
    } else {
        None
    }
}

fn marshal_one(v: &Expr) -> (r: Option<FFIArgument>)
    ensures
        match r {
            Some(a) => semantics::marshal_one(v@) == Some(a@),
            None => semantics::marshal_one(v@) is None,
        },
{
    match v {
        Expr::Int(n) => Some(FFIArgument::Integer(*n as i32)),
        Expr::Float(f) => Some(FFIArgument::Float(*f)),
        Expr::String(s) => Some(FFIArgument::String(s.clone())),
        Expr::Bool(b) => Some(FFIArgument::Boolean(*b)),
        Expr::Null => Some(FFIArgument::Null),
        _ => None,
    }
}

proof fn marshalled_fails(args: Seq<SpannedView>, n: int, m: int)
    requires
        0 <= n <= m <= args.len(),
        semantics::marshalled(args, n) is None,
    ensures
        semantics::marshalled(args, m) is None,
    decreases m - n,
{
    if n < m {
        marshalled_fails(args, n, m - 1);
    }
}

/// The arguments of a call as they cross to native code, or `None` if one
/// of them is of a kind that cannot cross.
pub fn marshal(args: &Vec<SpannedExpr>) -> (r: Option<Vec<FFIArgument>>)
    ensures
        match r {
            Some(v) => semantics::marshalled(nodes_view(args@), args@.len() as int) == Some(
                arguments_view(v@),
            ),
            None => semantics::marshalled(nodes_view(args@), args@.len() as int) is None,
        },
{
    let mut out: Vec<FFIArgument> = Vec::new();
    let mut i: usize = 0;
    assert(arguments_view(out@) =~= Seq::<FFIArgumentView>::empty());
    while i < args.len()
        invariant
            i <= args.len(),
            semantics::marshalled(nodes_view(args@), i as int) == Some(arguments_view(out@)),
        decreases args.len() - i,
    {
        let ghost before = arguments_view(out@);
        assert(nodes_view(args@)[i as int].node == args@[i as int].node@);
        match marshal_one(&args[i].node) {
            Some(a) => {
                out.push(a);
                assert(arguments_view(out@) =~= before.push(a@));
            },
            None => {
                proof {
                    marshalled_fails(nodes_view(args@), i + 1, args@.len() as int);
                }
                return None;
            },
        }
        i += 1;
    }
    Some(out)
}

/// Asks the host for a result that is taken as it stands.
pub fn host_result(request: Request, span: Span, context: &Environment, session: &mut Session) -> (out:
    Result<Flow, EvalError>)
    ensures
        is_outcome(
            out,
            *context,
            *final(session),
            semantics::host_result(request@, span, world(*context, *old(session))),
        ),
        final(session).steps == old(session).steps,
{
    match session.ask(request, span) {
        Err(e) => Err(e),
        Ok(Answer::Failure(text)) => Err(EvalError::native(text, span)),
        Ok(Answer::Value(v)) => finish(v),
    }
}

/// `print`: adds the line that the arguments make to the output, or the
/// arguments themselves where only the host can write them.
pub fn print_result(args: Vec<SpannedExpr>, context: &Environment, session: &mut Session) -> (out:
    Result<Flow, EvalError>)
    ensures
        is_outcome(
            out,
            *context,
            *final(session),
            semantics::print_result(nodes_view(args@), world(*context, *old(session))),
        ),
        final(session).steps == old(session).steps,
{
    match crate::builtins::misc::print(&args) {
        Some(line) => {
            session.print(Piece::Text(line));
            finish(Expr::Null)
        },
        None => {
            session.print(Piece::Values(args));
            finish(Expr::Null)
        },
    }
}

fn receiver_name(callee: &SpannedExpr) -> (r: Option<String>)
    ensures
        match r {
            Some(s) => semantics::receiver_name(callee@) == Some(s@),
            None => semantics::receiver_name(callee@) is None,
        },
{
    match &callee.node {
        Expr::PropertyAccess { object, property } => {
            assert(callee@.node->PropertyAccess_object == object@);
            match &object.node {
                Expr::Identifier(name) => Some(name.clone()),
                _ => None,
            }
        },
        _ => None,
    }
}

/// Calls a native function on its arguments and, where it hands back a
/// replacement of its receiver, binds the receiver's name to it.
pub fn native_result(
    func: Native,
    actuals: Vec<SpannedExpr>,
    callee: &SpannedExpr,
    span: Span,
    context: &mut Environment,
    session: &mut Session,
) -> (out: Result<Flow, EvalError>)
    ensures
        is_outcome(
            out,
            *final(context),
            *final(session),
            semantics::native_result(
                func,
                nodes_view(actuals@),
                callee@,
                span,
                world(*old(context), *old(session)),
            ),
        ),
        final(session).steps == old(session).steps,
{
    match func {
        Native::Print => {
            return print_result(actuals, context, session);
        },
        _ => {},
    }
    match crate::natives::call_native(func, copy_nodes(&actuals)) {
        None => host_result(Request::Native { func, args: actuals }, span, context, session),
        Some(Err((text, at))) => Err(EvalError::native(text, at)),
        Some(Ok(response)) => {
            let InternalFunctionResponse { return_value, replace_self } = response;
            match (replace_self, receiver_name(callee)) {
                (Some(replacement), Some(name)) => {
                    context.insert(name, replacement);
                    finish(return_value)
                },
                _ => finish(return_value),
            }
        },
    }
}

fn symbol_of(callee: &SpannedExpr) -> (r: Option<String>)
    ensures
        match r {
            Some(s) => semantics::symbol_of(callee@) == Some(s@),
            None => semantics::symbol_of(callee@) is None,
        },
{
    match &callee.node {
        Expr::PropertyAccess { object, property } => Some(property.clone()),
        _ => None,
    }
}

/// Calls a function of a native library through the host.
pub fn ffi_result(
    library: LibraryHandle,
    callee: &SpannedExpr,
    actuals: &Vec<SpannedExpr>,
    span: Span,
    context: &Environment,
    session: &mut Session,
) -> (out: Result<Flow, EvalError>)
    ensures
        is_outcome(
            out,
            *context,
            *final(session),
            semantics::ffi_result(
                library,
                callee@,
                nodes_view(actuals@),
                span,
                world(*context, *old(session)),
            ),
        ),
        final(session).steps == old(session).steps,
{
    match symbol_of(callee) {
        None => raise(EvalErrorKind::FFIError, "no symbol is named", span),
        Some(symbol) => match marshal(actuals) {
            None => raise(EvalErrorKind::FFIError, "Unsupported argument type for FFI call", span),
            Some(args) => match session.ask(Request::Ffi { library, symbol, args }, span) {
                Err(e) => Err(e),
                Ok(Answer::Failure(text)) => raise(EvalErrorKind::FFIError, text.as_str(), span),
                Ok(Answer::Value(v)) => finish(v),
            },
        },
    }
}

fn function_result(r: Result<Flow, EvalError>, span: Span) -> (out: Result<Flow, EvalError>)
    ensures
        result_view(out) == semantics::function_result(result_view(r), span),
{
    match r {
        Err(e) => Err(e),
        Ok(Flow::Continue(v)) => Ok(Flow::Continue(v)),
        Ok(Flow::Return(v)) => Ok(Flow::Continue(v)),
        Ok(Flow::Break) => raise(EvalErrorKind::UnexpectedControlFlow(Escape::Break), "", span),
        Ok(Flow::Skip) => raise(EvalErrorKind::UnexpectedControlFlow(Escape::Skip), "", span),
    }
}

fn bind_parameters(context: &Environment, formal: &Vec<String>, actuals: &Vec<SpannedExpr>) -> (r:
    Environment)
    requires
        formal.len() == actuals.len(),
    ensures
        r@ == semantics::bind_parameters(
            context@,
            names_view(formal@),
            nodes_view(actuals@),
            formal@.len() as int,
        ),
{
    let mut inner = context.copy();
    let mut k: usize = 0;
    while k < formal.len()
        invariant
            k <= formal.len(),
            formal.len() == actuals.len(),
            inner@ == semantics::bind_parameters(
                context@,
                names_view(formal@),
                nodes_view(actuals@),
                k as int,
            ),
        decreases formal.len() - k,
    {
        assert(nodes_view(actuals@)[k as int].node == actuals@[k as int].node@);
        inner.insert(formal[k].clone(), actuals[k].node.copy());
        k += 1;
    }
    inner
}

// ---------------------------------------------------------------------------
// Programs
// ---------------------------------------------------------------------------

/// Why a program did not run to its end.
#[derive(Debug)]
pub enum Diagnostic {
    /// The source is not made of tokens.
    Lex(LexingError, Span),
    /// The tokens do not make statements.
    Syntax(ParseError),
    /// A `return`, `break` or `continue` stands among the top-level
    /// statements.
    TopLevel(TopLevel, Span),
    /// A statement failed.
    Eval(EvalError),
}

impl View for Diagnostic {
    type V = DiagnosticView;

    open spec fn view(&self) -> DiagnosticView {
        match self {
            Diagnostic::Lex(e, span) => DiagnosticView::Lex(e@, *span),
            Diagnostic::Syntax(e) => DiagnosticView::Syntax(e@),
            Diagnostic::TopLevel(what, span) => DiagnosticView::TopLevel(*what, *span),
            Diagnostic::Eval(e) => DiagnosticView::Eval(e@),
        }
    }
}

fn misplaced(stmts: &Vec<SpannedExpr>) -> (r: Option<(TopLevel, Span)>)
    ensures
        r == semantics::misplaced(nodes_view(stmts@), 0),
{
    let mut i: usize = 0;
    while i < stmts.len()
        invariant
            i <= stmts.len(),
            semantics::misplaced(nodes_view(stmts@), 0) == semantics::misplaced(
                nodes_view(stmts@),
                i as int,
            ),
        decreases stmts.len() - i,
    {
        assert(nodes_view(stmts@)[i as int] == stmts@[i as int]@);
        match &stmts[i].node {
            Expr::Return(_) => {
                return Some((TopLevel::Return, stmts[i].span));
            },
            Expr::Break => {
                return Some((TopLevel::Break, stmts[i].span));
            },
            Expr::Continue => {
                return Some((TopLevel::Continue, stmts[i].span));
            },
            _ => {},
        }
        i += 1;
    }
    None
}

/// The statements of a source text: tokenized, parsed, and checked for
/// statements that may not stand at the top level.
pub fn read_statements(source: &str) -> (r: Result<Vec<SpannedExpr>, Diagnostic>)
    ensures
        match r {
            Ok(stmts) => semantics::statements(source@) == Ok::<Seq<SpannedView>, DiagnosticView>(
                nodes_view(stmts@),
            ),
            Err(d) => semantics::statements(source@) == Err::<Seq<SpannedView>, DiagnosticView>(d@),
        },
{
    match tokenize(source) {
        Err((e, span)) => Err(Diagnostic::Lex(e, span)),
        Ok(tokens) => match parse_program(&tokens) {
            Err(e) => Err(Diagnostic::Syntax(e)),
            Ok(stmts) => match misplaced(&stmts) {
                Some((what, span)) => Err(Diagnostic::TopLevel(what, span)),
                None => Ok(stmts),
            },
        },
    }
}

fn statement_result(r: Result<Flow, EvalError>, span: Span) -> (out: Result<(), EvalError>)
    ensures
        match out {
            Ok(()) => semantics::statement_result(result_view(r), span) == Ok::<(), EvalErrorView>(()),
            Err(e) => semantics::statement_result(result_view(r), span) == Err::<(), EvalErrorView>(
                e@,
            ),
        },
{
    match r {
        Err(e) => Err(e),
        Ok(Flow::Continue(_)) => Ok(()),
        Ok(Flow::Return(_)) => Err(
            EvalError::new(EvalErrorKind::UnexpectedControlFlow(Escape::Return), "", span),
        ),
        Ok(Flow::Break) => Err(
            EvalError::new(EvalErrorKind::UnexpectedControlFlow(Escape::Break), "", span),
        ),
        Ok(Flow::Skip) => Err(
            EvalError::new(EvalErrorKind::UnexpectedControlFlow(Escape::Skip), "", span),
        ),
    }
}

fn idle(stmt: &SpannedExpr, context: &Environment) -> (r: bool)
    ensures
        r == semantics::idle(stmt@, context@),
{
    match &stmt.node {
        Expr::Identifier(name) => !context.contains_key(name.as_str()),
        _ => false,
    }
}

// ---------------------------------------------------------------------------
// Evaluation
// ---------------------------------------------------------------------------

/// Evaluates the node `expr` in the environment `context`. Calls and
/// imports may nest `depth` deep.
pub fn eval(expr: &SpannedExpr, context: &mut Environment, session: &mut Session, depth: u64) -> (out:
    Result<Flow, EvalError>)
    ensures
        is_outcome(
            out,
            *final(context),
            *final(session),
            eval_spec(expr@, world(*old(context), *old(session)), depth as nat),
        ),
        final(session).steps <= old(session).steps,
    decreases depth, expr, 5nat,
{
    proof {
        eval_unfolds(expr@, world(*context, *session), depth as nat);
    }
    match &expr.node {
        Expr::Int(n) => finish(Expr::Int(*n)),
        Expr::Float(f) => finish(Expr::Float(*f)),
        Expr::String(s) => finish(Expr::String(s.clone())),
        Expr::Bool(b) => finish(Expr::Bool(*b)),
        Expr::Null => finish(Expr::Null),
        Expr::Range { .. } => finish(expr.node.copy()),
        Expr::Object { .. } => finish(expr.node.copy()),
        Expr::Module { .. } => finish(expr.node.copy()),
        Expr::InternalFunction { .. } => finish(expr.node.copy()),
        Expr::FFILibrary(h) => finish(Expr::FFILibrary(*h)),
        Expr::FloatLiteral(text) => float_result(
            FloatOp::Parse,
            Expr::String(text.clone()),
            Expr::Null,
            expr.span,
            context,
            session,
        ),
        Expr::Identifier(name) => match context.get(name.as_str()) {
            Some(v) => finish(v),
            None => raise(EvalErrorKind::UndefinedVariable, name.as_str(), expr.span),
        },
        Expr::Neg(_) => eval_negate(expr, context, session, depth),
        Expr::Binary { .. } => eval_binary(expr, context, session, depth),
        Expr::Let { .. } => eval_let(expr, context, session, depth),
        Expr::Function { name, .. } => {
            context.insert(name.clone(), expr.node.copy());
            finish(Expr::Null)
        },
        Expr::Block(stmts) => eval_block(expr, context, session, depth),
        Expr::If { .. } => eval_if(expr, context, session, depth),
        Expr::InfiniteLoop { .. } => eval_loop(expr, context, session, depth),
        Expr::ForLoop { .. } => eval_for(expr, context, session, depth),
        Expr::Return(_) => eval_return(expr, context, session, depth),
        Expr::Break => Ok(Flow::Break),
        Expr::Continue => Ok(Flow::Skip),
        Expr::Array(items) => match eval_list(expr, items, context, session, depth) {
            Err(e) => Err(e),
            Ok(values) => finish(Expr::Array(values)),
        },
        Expr::PropertyAccess { .. } => eval_property(expr, context, session, depth),
        Expr::IndexAccess { .. } => eval_index(expr, context, session, depth),
        Expr::Call { .. } => eval_call(expr, context, session, depth),
        Expr::Import { .. } => eval_import(expr, context, session, depth),
    }
}

fn eval_negate(expr: &SpannedExpr, context: &mut Environment, session: &mut Session, depth: u64) -> (out:
    Result<Flow, EvalError>)
    requires
        expr.node is Neg,
    ensures
        is_outcome(
            out,
            *final(context),
            *final(session),
            semantics::eval_negate(expr@, world(*old(context), *old(session)), depth as nat),
        ),
        final(session).steps <= old(session).steps,
    decreases depth, expr, 3nat,
{
    match &expr.node {
        Expr::Neg(inner) => match eval(inner, context, session, depth) {
            Err(e) => Err(e),
            Ok(flow) => finish_negate(flow.unwrap(), expr.span, context, session),
        },
        _ => finish(Expr::Null),
    }
}

fn eval_binary(expr: &SpannedExpr, context: &mut Environment, session: &mut Session, depth: u64) -> (out:
    Result<Flow, EvalError>)
    requires
        expr.node is Binary,
    ensures
        is_outcome(
            out,
            *final(context),
            *final(session),
            semantics::eval_binary(expr@, world(*old(context), *old(session)), depth as nat),
        ),
        final(session).steps <= old(session).steps,
    decreases depth, expr, 3nat,
{
    match &expr.node {
        Expr::Binary { op, left, right } => match eval(left, context, session, depth) {
            Err(e) => Err(e),
            Ok(l) => match eval(right, context, session, depth) {
                Err(e) => Err(e),
                Ok(r) => finish_binary(*op, l.unwrap(), r.unwrap(), expr.span, context, session),
            },
        },
        _ => finish(Expr::Null),
    }
}

fn eval_let(expr: &SpannedExpr, context: &mut Environment, session: &mut Session, depth: u64) -> (out:
    Result<Flow, EvalError>)
    requires
        expr.node is Let,
    ensures
        is_outcome(
            out,
            *final(context),
            *final(session),
            semantics::eval_let(expr@, world(*old(context), *old(session)), depth as nat),
        ),
        final(session).steps <= old(session).steps,
    decreases depth, expr, 3nat,
{
    match &expr.node {
        Expr::Let { name, value } => match eval(value, context, session, depth) {
            Err(e) => Err(e),
            Ok(flow) => {
                context.insert(name.clone(), flow.unwrap());
                finish(Expr::Null)
            },
        },
        _ => finish(Expr::Null),
    }
}

fn eval_return(expr: &SpannedExpr, context: &mut Environment, session: &mut Session, depth: u64) -> (out:
    Result<Flow, EvalError>)
    requires
        expr.node is Return,
    ensures
        is_outcome(
            out,
            *final(context),
            *final(session),
            semantics::eval_return(expr@, world(*old(context), *old(session)), depth as nat),
        ),
        final(session).steps <= old(session).steps,
    decreases depth, expr, 3nat,
{
    match &expr.node {
        Expr::Return(value) => match eval(value, context, session, depth) {
            Err(e) => Err(e),
            Ok(flow) => Ok(Flow::Return(flow.unwrap())),
        },
        _ => finish(Expr::Null),
    }
}

#[verifier::loop_isolation(false)]
fn eval_block(expr: &SpannedExpr, context: &mut Environment, session: &mut Session, depth: u64) -> (out:
    Result<Flow, EvalError>)
    requires
        expr.node is Block,
    ensures
        is_outcome(
            out,
            *final(context),
            *final(session),
            semantics::eval_block(
                expr@.node->Block_0,
                0,
                world(*old(context), *old(session)),
                crate::environment::names(old(context)@),
                depth as nat,
            ),
        ),
        final(session).steps <= old(session).steps,
    decreases depth, expr, 3nat,
{
    match &expr.node {
        Expr::Block(stmts) => {
            let keep = context.keys();
            let ghost target = semantics::eval_block(
                nodes_view(stmts@),
                0,
                world(*old(context), *old(session)),
                names_view(keep@),
                depth as nat,
            );
            let mut i: usize = 0;
            while i < stmts.len()
                invariant
                    i <= stmts.len(),
                    target == semantics::eval_block(
                        nodes_view(stmts@),
                        i as int,
                        world(*context, *session),
                        names_view(keep@),
                        depth as nat,
                    ),
                    session.steps <= old(session).steps,
                decreases stmts.len() - i,
            {
                assert(nodes_view(stmts@)[i as int] == stmts@[i as int]@);
                match eval(&stmts[i], context, session, depth) {
                    Err(e) => {
                        return Err(e);
                    },
                    Ok(Flow::Continue(_)) => {},
                    Ok(signal) => {
                        return Ok(signal);
                    },
                }
                i += 1;
            }
            context.prune(&keep);
            finish(Expr::Null)
        },
        _ => finish(Expr::Null),
    }
}

/// The values of the nodes `items`, which are part of `parent`.
#[verifier::loop_isolation(false)]
fn eval_list(
    parent: &SpannedExpr,
    items: &Vec<SpannedExpr>,
    context: &mut Environment,
    session: &mut Session,
    depth: u64,
) -> (out: Result<Vec<SpannedExpr>, EvalError>)
    requires
        decreases_to!(parent => items),
    ensures
        match out {
            Ok(values) => semantics::eval_list(
                nodes_view(items@),
                0,
                Seq::empty(),
                world(*old(context), *old(session)),
                depth as nat,
            ) == (
                Ok::<Seq<SpannedView>, EvalErrorView>(nodes_view(values@)),
                world(*final(context), *final(session)),
            ),
            Err(e) => semantics::eval_list(
                nodes_view(items@),
                0,
                Seq::empty(),
                world(*old(context), *old(session)),
                depth as nat,
            ) == (
                Err::<Seq<SpannedView>, EvalErrorView>(e@),
                world(*final(context), *final(session)),
            ),
        },
        final(session).steps <= old(session).steps,
    decreases depth, parent, 2nat,
{
    let mut values: Vec<SpannedExpr> = Vec::new();
    let ghost target = semantics::eval_list(
        nodes_view(items@),
        0,
        Seq::empty(),
        world(*old(context), *old(session)),
        depth as nat,
    );
    assert(nodes_view(values@) =~= Seq::<SpannedView>::empty());
    let mut i: usize = 0;
    while i < items.len()
        invariant
            i <= items.len(),
            target == semantics::eval_list(
                nodes_view(items@),
                i as int,
                nodes_view(values@),
                world(*context, *session),
                depth as nat,
            ),
            session.steps <= old(session).steps,
        decreases items.len() - i,
    {
        assert(nodes_view(items@)[i as int] == items@[i as int]@);
        match eval(&items[i], context, session, depth) {
            Err(e) => {
                return Err(e);
            },
            Ok(flow) => {
                let ghost before = nodes_view(values@);
                let value = SpannedExpr { node: flow.unwrap(), span: items[i].span };
                let ghost added = value@;
                values.push(value);
                assert(nodes_view(values@) =~= before.push(added));
            },
        }
        i += 1;
    }
    Ok(values)
}

fn eval_if(expr: &SpannedExpr, context: &mut Environment, session: &mut Session, depth: u64) -> (out:
    Result<Flow, EvalError>)
    requires
        expr.node is If,
    ensures
        is_outcome(
            out,
            *final(context),
            *final(session),
            semantics::eval_if(expr@, world(*old(context), *old(session)), depth as nat),
        ),
        final(session).steps <= old(session).steps,
    decreases depth, expr, 3nat,
{
    match &expr.node {
        Expr::If { condition, then_branch, else_branch } => match eval(
            condition,
            context,
            session,
            depth,
        ) {
            Err(e) => Err(e),
            Ok(flow) => {
                let v = flow.unwrap();
                let chosen: Option<bool> = match &v {
                    Expr::Bool(b) => Some(*b),
                    Expr::Null => Some(false),
                    _ => None,
                };
                match chosen {
                    Some(true) => eval(then_branch, context, session, depth),
                    Some(false) => match else_branch {
                        Some(other) => eval(other, context, session, depth),
                        None => finish(Expr::Null),
                    },
                    None => raise(
                        EvalErrorKind::TypeMismatch {
                            operator: Operator::Condition,
                            left: kind(&v),
                            right: Kind::Null,
                        },
                        "",
                        expr.span,
                    ),
                }
            },
        },
        _ => finish(Expr::Null),
    }
}

#[verifier::loop_isolation(false)]
fn eval_loop(expr: &SpannedExpr, context: &mut Environment, session: &mut Session, depth: u64) -> (out:
    Result<Flow, EvalError>)
    requires
        expr.node is InfiniteLoop,
    ensures
        is_outcome(
            out,
            *final(context),
            *final(session),
            semantics::eval_loop(
                *expr@.node->InfiniteLoop_body,
                world(*old(context), *old(session)),
                depth as nat,
            ),
        ),
        final(session).steps <= old(session).steps,
    decreases depth, expr, 3nat,
{
    match &expr.node {
        Expr::InfiniteLoop { body } => {
            let ghost target = semantics::eval_loop(
                body@,
                world(*old(context), *old(session)),
                depth as nat,
            );
            loop
                invariant
                    target == semantics::eval_loop(body@, world(*context, *session), depth as nat),
                    session.steps <= old(session).steps,
                decreases session.steps,
            {
                if session.steps == 0 {
                    return raise(EvalErrorKind::StepLimitExceeded, "", body.span);
                }
                let ghost at_start = session.steps;
                session.steps = session.steps - 1;
                match eval(body, context, session, depth) {
                    Err(e) => {
                        return Err(e);
                    },
                    Ok(Flow::Return(v)) => {
                        return Ok(Flow::Return(v));
                    },
                    Ok(Flow::Break) => {
                        return finish(Expr::Null);
                    },
                    Ok(_) => {
                        assert(session.steps < at_start);
                    },
                }
            }
        },
        _ => finish(Expr::Null),
    }
}

fn eval_for(expr: &SpannedExpr, context: &mut Environment, session: &mut Session, depth: u64) -> (out:
    Result<Flow, EvalError>)
    requires
        expr.node is ForLoop,
    ensures
        is_outcome(
            out,
            *final(context),
            *final(session),
            semantics::eval_for(expr@, world(*old(context), *old(session)), depth as nat),
        ),
        final(session).steps <= old(session).steps,
    decreases depth, expr, 3nat,
{
    match &expr.node {
        Expr::ForLoop { iterator_name, iterator_range, body } => match eval(
            iterator_range,
            context,
            session,
            depth,
        ) {
            Err(e) => Err(e),
            Ok(flow) => {
                let v = flow.unwrap();
                match v {
                    Expr::Range { start, end, inclusive } => for_bounds(
                        expr,
                        &start,
                        &end,
                        inclusive,
                        context,
                        session,
                        depth,
                    ),
                    other => raise(
                        EvalErrorKind::TypeMismatch {
                            operator: Operator::Iterate,
                            left: kind(&other),
                            right: Kind::Null,
                        },
                        "",
                        expr.span,
                    ),
                }
            },
        },
        _ => finish(Expr::Null),
    }
}

fn for_bounds(
    expr: &SpannedExpr,
    start: &SpannedExpr,
    end: &SpannedExpr,
    inclusive: bool,
    context: &mut Environment,
    session: &mut Session,
    depth: u64,
) -> (out: Result<Flow, EvalError>)
    requires
        expr.node is ForLoop,
    ensures
        is_outcome(
            out,
            *final(context),
            *final(session),
            semantics::for_bounds(
                expr@,
                expr@.node->ForLoop_iterator_name,
                start@,
                end@,
                inclusive,
                expr.span,
                world(*old(context), *old(session)),
                depth as nat,
            ),
        ),
        final(session).steps <= old(session).steps,
    decreases depth, expr, 2nat,
{
    if depth == 0 {
        return raise(EvalErrorKind::RecursionLimitExceeded, "", expr.span);
    }
    match eval(start, context, session, depth - 1) {
        Err(e) => Err(e),
        Ok(first) => {
            let first_value = first.unwrap();
            match first_value {
                Expr::Int(from) => match eval(end, context, session, depth - 1) {
                    Err(e) => Err(e),
                    Ok(last) => {
                        let last_value = last.unwrap();
                        match last_value {
                            Expr::Int(to) => {
                                let stop: i128 = if inclusive {
                                    to as i128 + 1
                                } else {
                                    to as i128
                                };
                                eval_iterations(expr, from as i128, stop, context, session, depth)
                            },
                            other => raise(
                                EvalErrorKind::TypeMismatch {
                                    operator: Operator::RangeEnd,
                                    left: kind(&other),
                                    right: Kind::Null,
                                },
                                "",
                                expr.span,
                            ),
                        }
                    },
                },
                other => raise(
                    EvalErrorKind::TypeMismatch {
                        operator: Operator::RangeStart,
                        left: kind(&other),
                        right: Kind::Null,
                    },
                    "",
                    expr.span,
                ),
            }
        },
    }
}

#[verifier::loop_isolation(false)]
fn eval_iterations(
    expr: &SpannedExpr,
    from: i128,
    stop: i128,
    context: &mut Environment,
    session: &mut Session,
    depth: u64,
) -> (out: Result<Flow, EvalError>)
    requires
        expr.node is ForLoop,
        i64::MIN <= from <= i64::MAX,
        i64::MIN <= stop <= i64::MAX + 1,
    ensures
        is_outcome(
            out,
            *final(context),
            *final(session),
            semantics::eval_iterations(
                expr@.node->ForLoop_iterator_name,
                from as int,
                stop as int,
                *expr@.node->ForLoop_body,
                world(*old(context), *old(session)),
                depth as nat,
            ),
        ),
        final(session).steps <= old(session).steps,
    decreases depth, expr, 1nat,
{
    match &expr.node {
        Expr::ForLoop { iterator_name, iterator_range, body } => {
            let ghost target = semantics::eval_iterations(
                iterator_name@,
                from as int,
                stop as int,
                body@,
                world(*old(context), *old(session)),
                depth as nat,
            );
            let mut i: i128 = from;
            while i < stop
                invariant
                    from <= i,
                    i <= stop || i == from,
                    i64::MIN <= i <= i64::MAX + 1,
                    target == semantics::eval_iterations(
                        iterator_name@,
                        i as int,
                        stop as int,
                        body@,
                        world(*context, *session),
                        depth as nat,
                    ),
                    session.steps <= old(session).steps,
                decreases stop - i,
            {
                context.insert(iterator_name.clone(), Expr::Int(i as i64));
                match eval(body, context, session, depth) {
                    Err(e) => {
                        return Err(e);
                    },
                    Ok(Flow::Return(v)) => {
                        return Ok(Flow::Return(v));
                    },
                    Ok(Flow::Break) => {
                        return finish(Expr::Null);
                    },
                    Ok(_) => {},
                }
                i = i + 1;
            }
            finish(Expr::Null)
        },
        _ => finish(Expr::Null),
    }
}

fn eval_property(expr: &SpannedExpr, context: &mut Environment, session: &mut Session, depth: u64) -> (out:
    Result<Flow, EvalError>)
    requires
        expr.node is PropertyAccess,
    ensures
        is_outcome(
            out,
            *final(context),
            *final(session),
            semantics::eval_property(expr@, world(*old(context), *old(session)), depth as nat),
        ),
        final(session).steps <= old(session).steps,
    decreases depth, expr, 3nat,
{
    match &expr.node {
        Expr::PropertyAccess { object, property } => match eval(object, context, session, depth) {
            Err(e) => Err(e),
            Ok(flow) => match property_of(flow.unwrap(), property.as_str()) {
                Ok(v) => finish(v),
                Err(k) => raise(k, property.as_str(), expr.span),
            },
        },
        _ => finish(Expr::Null),
    }
}

fn eval_index(expr: &SpannedExpr, context: &mut Environment, session: &mut Session, depth: u64) -> (out:
    Result<Flow, EvalError>)
    requires
        expr.node is IndexAccess,
    ensures
        is_outcome(
            out,
            *final(context),
            *final(session),
            semantics::eval_index(expr@, world(*old(context), *old(session)), depth as nat),
        ),
        final(session).steps <= old(session).steps,
    decreases depth, expr, 3nat,
{
    match &expr.node {
        Expr::IndexAccess { object, index } => match eval(object, context, session, depth) {
            Err(e) => Err(e),
            Ok(o) => match eval(index, context, session, depth) {
                Err(e) => Err(e),
                Ok(i) => match index_of(o.unwrap(), i.unwrap()) {
                    Ok(v) => finish(v),
                    Err(k) => raise(k, "", expr.span),
                },
            },
        },
        _ => finish(Expr::Null),
    }
}

fn eval_callee(callee: &SpannedExpr, context: &mut Environment, session: &mut Session, depth: u64) -> (out:
    Result<Flow, EvalError>)
    ensures
        is_outcome(
            out,
            *final(context),
            *final(session),
            semantics::eval_callee(callee@, world(*old(context), *old(session)), depth as nat),
        ),
        final(session).steps <= old(session).steps,
    decreases depth, callee, 6nat,
{
    match &callee.node {
        Expr::Identifier(name) => match context.get(name.as_str()) {
            Some(v) => finish(v),
            None => raise(EvalErrorKind::UndefinedFunction, name.as_str(), callee.span),
        },
        _ => eval(callee, context, session, depth),
    }
}

fn eval_call(expr: &SpannedExpr, context: &mut Environment, session: &mut Session, depth: u64) -> (out:
    Result<Flow, EvalError>)
    requires
        expr.node is Call,
    ensures
        is_outcome(
            out,
            *final(context),
            *final(session),
            semantics::eval_call(expr@, world(*old(context), *old(session)), depth as nat),
        ),
        final(session).steps <= old(session).steps,
    decreases depth, expr, 3nat,
{
    match &expr.node {
        Expr::Call { callee, args } => match eval_list(expr, args, context, session, depth) {
            Err(e) => Err(e),
            Ok(actuals) => match eval_callee(callee, context, session, depth) {
                Err(e) => Err(e),
                Ok(flow) => {
                    let target = flow.unwrap();
                    match target {
                        Expr::InternalFunction { name, args: formal, func } => call_native(
                            callee,
                            &formal,
                            func,
                            actuals,
                            expr.span,
                            context,
                            session,
                            depth,
                        ),
                        Expr::Function { name, args: formal, body } => call_function(
                            expr,
                            &formal,
                            &body,
                            &actuals,
                            context,
                            session,
                            depth,
                        ),
                        Expr::FFILibrary(library) => ffi_result(
                            library,
                            callee,
                            &actuals,
                            expr.span,
                            context,
                            session,
                        ),
                        _ => raise(EvalErrorKind::NotAFunction, "", expr.span),
                    }
                },
            },
        },
        _ => finish(Expr::Null),
    }
}

/// The receiver of a method call, as the semantics define it.
fn receiver<'a>(callee: &'a SpannedExpr, formal: &Vec<String>) -> (r: Option<&'a SpannedExpr>)
    ensures
        match r {
            Some(object) => semantics::receiver(callee@, names_view(formal@)) == Some(object@)
                && decreases_to!(callee => object),
            None => semantics::receiver(callee@, names_view(formal@)) is None,
        },
{
    if names_contain(formal, "self") {
        match &callee.node {
            Expr::PropertyAccess { object, property } => Some(object),
            _ => None,
        }
    } else {
        None
    }
}

fn call_native(
    callee: &SpannedExpr,
    formal: &Vec<String>,
    func: Native,
    actuals: Vec<SpannedExpr>,
    span: Span,
    context: &mut Environment,
    session: &mut Session,
    depth: u64,
) -> (out: Result<Flow, EvalError>)
    ensures
        is_outcome(
            out,
            *final(context),
            *final(session),
            semantics::call_native(
                callee@,
                names_view(formal@),
                func,
                nodes_view(actuals@),
                span,
                world(*old(context), *old(session)),
                depth as nat,
            ),
        ),
        final(session).steps <= old(session).steps,
    decreases depth, callee, 6nat,
{
    match receiver(callee, formal) {
        Some(object) => match eval(object, context, session, depth) {
            Err(e) => Err(e),
            Ok(flow) => {
                let mut all: Vec<SpannedExpr> = Vec::new();
                let first = SpannedExpr { node: flow.unwrap(), span: object.span };
                let ghost head = first@;
                all.push(first);
                let mut rest = actuals;
                let ghost tail = nodes_view(rest@);
                all.append(&mut rest);
                assert(nodes_view(all@) =~= seq![head] + tail);
                finish_native(callee, formal, func, all, span, context, session)
            },
        },
        None => finish_native(callee, formal, func, actuals, span, context, session),
    }
}

/// Calls a native function on all its arguments, after the arity check.
pub fn finish_native(
    callee: &SpannedExpr,
    formal: &Vec<String>,
    func: Native,
    actuals: Vec<SpannedExpr>,
    span: Span,
    context: &mut Environment,
    session: &mut Session,
) -> (out: Result<Flow, EvalError>)
    ensures
        is_outcome(
            out,
            *final(context),
            *final(session),
            semantics::finish_native(
                callee@,
                names_view(formal@),
                func,
                nodes_view(actuals@),
                span,
                world(*old(context), *old(session)),
            ),
        ),
        final(session).steps == old(session).steps,
{
    if variadic(formal) {
        native_result(func, actuals, callee, span, context, session)
    } else {
        match arity_error(formal.len(), &actuals, span) {
            Some(e) => Err(e),
            None => native_result(func, actuals, callee, span, context, session),
        }
    }
}

fn call_function(
    expr: &SpannedExpr,
    formal: &Vec<String>,
    body: &SpannedExpr,
    actuals: &Vec<SpannedExpr>,
    context: &mut Environment,
    session: &mut Session,
    depth: u64,
) -> (out: Result<Flow, EvalError>)
    ensures
        is_outcome(
            out,
            *final(context),
            *final(session),
            semantics::call_function(
                expr@,
                names_view(formal@),
                body@,
                nodes_view(actuals@),
                expr.span,
                world(*old(context), *old(session)),
                depth as nat,
            ),
        ),
        final(session).steps <= old(session).steps,
    decreases depth, expr, 2nat,
{
    match arity_error(formal.len(), actuals, expr.span) {
        Some(e) => Err(e),
        None => {
            if depth == 0 {
                return raise(EvalErrorKind::RecursionLimitExceeded, "", expr.span);
            }
            let mut inner = bind_parameters(context, formal, actuals);
            let r = eval(body, &mut inner, session, depth - 1);
            function_result(r, expr.span)
        },
    }
}

fn import_alias(name: &str, import_as: &Option<String>) -> (r: String)
    ensures
        r@ == semantics::import_alias(
            name@,
            match import_as {
                Some(a) => Some(a@),
                None => None,
            },
        ),
{
    match import_as {
        Some(alias) => alias.clone(),
        None => {
            proof {
                reveal_strlit(".modu");
            }
            if has_suffix(name, ".modu") {
                without_last(name, 5)
            } else {
                String::from_str(name)
            }
        },
    }
}

fn take_in(context: &mut Environment, alias: String, symbols: Vec<Binding>)
    ensures
        final(context)@ == semantics::imported(
            old(context)@,
            alias@,
            crate::ast::bindings_view(symbols@),
        ),
{
    if same_text(alias.as_str(), "*") {
        context.extend(&symbols);
    } else {
        context.insert(alias, Expr::Module { symbols });
    }
}

fn import_base(context: &Environment, session: &Session) -> (r: String)
    ensures
        r@ == semantics::import_base(world(*context, *session)),
{
    match context.get("CURRENTLY_PARSING_MODULE_PATH") {
        Some(Expr::String(path)) => directory(path.as_str()),
        _ => session.directory.clone(),
    }
}

fn unit_env(path: &str, package_name: &Option<String>) -> (r: Environment)
    ensures
        r@ == semantics::unit_env(
            path@,
            match package_name {
                Some(a) => Some(a@),
                None => None,
            },
        ),
{
    let mut env = create_context();
    env.insert(String::from_str("CURRENTLY_PARSING_MODULE_PATH"), Expr::String(String::from_str(path)));
    match package_name {
        Some(name) => {
            env.insert(String::from_str("CURRENTLY_PARSING_PACKAGE_NAME"), Expr::String(name.clone()));
        },
        None => {},
    }
    env
}

fn eval_import(expr: &SpannedExpr, context: &mut Environment, session: &mut Session, depth: u64) -> (out:
    Result<Flow, EvalError>)
    requires
        expr.node is Import,
    ensures
        is_outcome(
            out,
            *final(context),
            *final(session),
            semantics::eval_import(
                expr@,
                expr@.node->Import_name,
                expr@.node->Import_import_as,
                expr.span,
                world(*old(context), *old(session)),
                depth as nat,
            ),
        ),
        final(session).steps <= old(session).steps,
    decreases depth, expr, 3nat,
{
    match &expr.node {
        Expr::Import { name, import_as } => {
            let alias = import_alias(name.as_str(), import_as);
            let span = expr.span;
            if has_suffix(name.as_str(), ".modu") {
                let path = joined(import_base(context, session).as_str(), name.as_str());
                load_unit(expr, path, None, alias, context, session, depth)
            } else {
                match get_package(name.as_str(), session.sandbox, session.platform.as_str()) {
                    Some(Expr::Module { symbols }) => {
                        take_in(context, alias, symbols);
                        finish(Expr::Null)
                    },
                    Some(_) => finish(Expr::Null),
                    None => {
                        let mut path = session.directory.clone();
                        crate::text::push_text(&mut path, ".modu/packages/");
                        crate::text::push_text(&mut path, name.as_str());
                        crate::text::push_text(&mut path, "/lib.modu");
                        match session.ask(Request::FileExists { path: path.clone() }, span) {
                            Err(e) => Err(e),
                            Ok(Answer::Value(Expr::Bool(true))) => load_unit(
                                expr,
                                path,
                                Some(name.clone()),
                                alias,
                                context,
                                session,
                                depth,
                            ),
                            Ok(Answer::Value(Expr::Bool(false))) => raise(
                                EvalErrorKind::ImportFailed(ImportFailure::NotFound),
                                name.as_str(),
                                span,
                            ),
                            Ok(Answer::Failure(text)) => raise(
                                EvalErrorKind::ImportFailed(ImportFailure::NotFound),
                                text.as_str(),
                                span,
                            ),
                            Ok(Answer::Value(_)) => raise(EvalErrorKind::BadAnswer, "", span),
                        }
                    },
                }
            }
        },
        _ => finish(Expr::Null),
    }
}

fn load_unit(
    expr: &SpannedExpr,
    path: String,
    package_name: Option<String>,
    alias: String,
    context: &mut Environment,
    session: &mut Session,
    depth: u64,
) -> (out: Result<Flow, EvalError>)
    ensures
        is_outcome(
            out,
            *final(context),
            *final(session),
            semantics::load_unit(
                expr@,
                path@,
                match package_name {
                    Some(a) => Some(a@),
                    None => None,
                },
                alias@,
                expr.span,
                world(*old(context), *old(session)),
                depth as nat,
            ),
        ),
        final(session).steps <= old(session).steps,
    decreases depth, expr, 2nat,
{
    let span = expr.span;
    match session.ask(Request::ReadFile { path: path.clone() }, span) {
        Err(e) => Err(e),
        Ok(Answer::Failure(text)) => raise(
            EvalErrorKind::ImportFailed(ImportFailure::Unreadable),
            text.as_str(),
            span,
        ),
        Ok(Answer::Value(Expr::String(source))) => {
            if depth == 0 {
                return raise(EvalErrorKind::RecursionLimitExceeded, "", span);
            }
            match read_statements(source.as_str()) {
                Err(_) => raise(
                    EvalErrorKind::ImportFailed(ImportFailure::ParseFailed),
                    path.as_str(),
                    span,
                ),
                Ok(stmts) => {
                    let seeded = unit_env(path.as_str(), &package_name);
                    let mut unit = seeded.copy();
                    match run(&stmts, &mut unit, session, depth - 1) {
                        Err(e) => Err(e),
                        Ok(()) => {
                            let defined = unit.without(&seeded);
                            take_in(context, alias, defined.entries);
                            finish(Expr::Null)
                        },
                    }
                },
            }
        },
        Ok(Answer::Value(_)) => raise(EvalErrorKind::BadAnswer, "", span),
    }
}

/// Runs the top-level statements `stmts` in order; the first failure ends
/// the run. A bare name without a binding does nothing.
#[verifier::loop_isolation(false)]
pub fn run(stmts: &Vec<SpannedExpr>, context: &mut Environment, session: &mut Session, depth: u64) -> (out:
    Result<(), EvalError>)
    ensures
        match out {
            Ok(()) => semantics::run(
                nodes_view(stmts@),
                0,
                world(*old(context), *old(session)),
                depth as nat,
            ) == (Ok::<(), EvalErrorView>(()), world(*final(context), *final(session))),
            Err(e) => semantics::run(
                nodes_view(stmts@),
                0,
                world(*old(context), *old(session)),
                depth as nat,
            ) == (Err::<(), EvalErrorView>(e@), world(*final(context), *final(session))),
        },
        final(session).steps <= old(session).steps,
    decreases depth, stmts, 0nat,
{
    let ghost target = semantics::run(
        nodes_view(stmts@),
        0,
        world(*old(context), *old(session)),
        depth as nat,
    );
    let mut i: usize = 0;
    while i < stmts.len()
        invariant
            i <= stmts.len(),
            target == semantics::run(
                nodes_view(stmts@),
                i as int,
                world(*context, *session),
                depth as nat,
            ),
            session.steps <= old(session).steps,
        decreases stmts.len() - i,
    {
        assert(nodes_view(stmts@)[i as int] == stmts@[i as int]@);
        if !idle(&stmts[i], context) {
            let r = eval(&stmts[i], context, session, depth);
            match statement_result(r, stmts[i].span) {
                Err(e) => {
                    return Err(e);
                },
                Ok(()) => {},
            }
        }
        i += 1;
    }
    Ok(())
}

/// Runs a program from its source text: the statements are read, then run
/// in order in the environment `context`.
pub fn parse(source: &str, context: &mut Environment, session: &mut Session, depth: u64) -> (out:
    Result<(), Diagnostic>)
    ensures
        match out {
            Ok(()) => semantics::run_source(
                source@,
                world(*old(context), *old(session)),
                depth as nat,
            ) == (Ok::<(), DiagnosticView>(()), world(*final(context), *final(session))),
            Err(d) => semantics::run_source(
                source@,
                world(*old(context), *old(session)),
                depth as nat,
            ) == (Err::<(), DiagnosticView>(d@), world(*final(context), *final(session))),
        },
{
    match read_statements(source) {
        Err(d) => Err(d),
        Ok(stmts) => match run(&stmts, context, session, depth) {
            Err(e) => Err(Diagnostic::Eval(e)),
            Ok(()) => Ok(()),
        },
    }
}

} // verus!
