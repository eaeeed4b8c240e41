//! What evaluation means: the value or signal of every node, and what it
//! leaves of the environment and the session.
//!
//! Evaluation is a function of the node, the environment, the session (with
//! the host's answers) and the depth that calls and imports may still nest.

use crate::ast::{BinaryOp, ExprView, Native, Span, SpannedView};
use crate::environment::{beyond, bind, binds, lookup, merge, names, prune, Bindings};
use crate::grammar::{parse_program, ParseErrorView};
use crate::lexer::{lex, LexingErrorView};
use crate::libraries::package;
use crate::natives::pure_call;
use crate::session::{
    asked, printed, AnswerView, FFIArgumentView, FloatOp, PieceView, RequestView, SessionView,
};
use crate::text::{directory_of, ends_with};
use crate::utils::initial;
use crate::values::{error, kind_of, native_error, unwrapped, Escape, EvalErrorKind, EvalErrorView, FlowView, ImportFailure, Kind, Operator};
use vstd::prelude::*;

verus! {

/// Everything that evaluation reads and changes.
pub struct World {
    pub env: Bindings,
    pub session: SessionView,
}

/// The outcome of evaluating a node.
pub type Outcome = (Result<FlowView, EvalErrorView>, World);

/// The outcome of evaluating a list of nodes: their values, each with the
/// span of its node.
pub type Listed = (Result<Seq<SpannedView>, EvalErrorView>, World);

/// The outcome of running statements.
pub type Ran = (Result<(), EvalErrorView>, World);

/// Normal completion with the value `v`.
pub open spec fn ok(v: ExprView, w: World) -> Outcome {
    (Ok(FlowView::Continue(v)), w)
}

/// Failure with an error of kind `kind`.
pub open spec fn raise(kind: EvalErrorKind, detail: Seq<char>, span: Span, w: World) -> Outcome {
    (Err(error(kind, detail, span)), w)
}

// ---------------------------------------------------------------------------
// Operators
// ---------------------------------------------------------------------------

/// What a binary operator makes of two values.
pub enum Applied {
    /// The result.
    Value(ExprView),
    /// The operand kinds do not fit the operator.
    Mismatch,
    /// One operand is a floating-point number: the host computes the result.
    Float,
}

/// Whether the operator is a comparison.
pub open spec fn is_comparison(op: BinaryOp) -> bool {
    !(op is Add || op is Sub)
}

/// The result of an operator on two integers; sums and differences wrap
/// around.
pub open spec fn apply_integers(op: BinaryOp, a: i64, b: i64) -> ExprView {
    match op {
        BinaryOp::Add => ExprView::Int(vstd::wrapping::i64_specs::wrapping_add(a, b)),
        BinaryOp::Sub => ExprView::Int(vstd::wrapping::i64_specs::wrapping_sub(a, b)),
        BinaryOp::Equal => ExprView::Bool(a == b),
        BinaryOp::NotEqual => ExprView::Bool(a != b),
        BinaryOp::LessThan => ExprView::Bool(a < b),
        BinaryOp::LessThanOrEqual => ExprView::Bool(a <= b),
        BinaryOp::GreaterThan => ExprView::Bool(a > b),
        BinaryOp::GreaterThanOrEqual => ExprView::Bool(a >= b),
    }
}

/// The result of `==` or `!=` where `same` says whether the operands are
/// equal; any other operator does not fit.
pub open spec fn apply_equality(op: BinaryOp, same: bool) -> Applied {
    match op {
        BinaryOp::Equal => Applied::Value(ExprView::Bool(same)),
        BinaryOp::NotEqual => Applied::Value(ExprView::Bool(!same)),
        _ => Applied::Mismatch,
    }
}

/// What the operator `op` makes of the values `l` and `r`. Equality never
/// fails: operands of kinds that do not compare are unequal.
pub open spec fn apply(op: BinaryOp, l: ExprView, r: ExprView) -> Applied {
    match (l, r) {
        (ExprView::Int(a), ExprView::Int(b)) => Applied::Value(apply_integers(op, a, b)),
        (ExprView::Float(_), ExprView::Float(_)) => Applied::Float,
        (ExprView::Int(_), ExprView::Float(_)) => Applied::Float,
        (ExprView::Float(_), ExprView::Int(_)) => Applied::Float,
        (ExprView::String(a), ExprView::String(b)) => if op is Add {
            Applied::Value(ExprView::String(a + b))
        } else {
            apply_equality(op, a == b)
        },
        (ExprView::Bool(a), ExprView::Bool(b)) => apply_equality(op, a == b),
        (ExprView::Null, ExprView::Null) => apply_equality(op, true),
        _ => apply_equality(op, false),
    }
}

/// Whether the host's value `v` can be the result of the operation `op`.
pub open spec fn float_answer_fits(op: FloatOp, v: ExprView) -> bool {
    match op {
        FloatOp::Binary(b) => if is_comparison(b) {
            v is Bool
        } else {
            v is Float
        },
        _ => v is Float,
    }
}

/// The outcome of an operation that the host computes.
pub open spec fn float_result(op: FloatOp, l: ExprView, r: ExprView, span: Span, w: World) -> Outcome {
    let (answer, session) = asked(w.session, RequestView::Float { op, left: l, right: r }, span);
    let w1 = World { env: w.env, session };
    match answer {
        Err(e) => (Err(e), w1),
        Ok(AnswerView::Failure(text)) => (Err(native_error(text, span)), w1),
        Ok(AnswerView::Value(v)) => if float_answer_fits(op, v) {
            ok(v, w1)
        } else {
            raise(EvalErrorKind::BadAnswer, ""@, span, w1)
        },
    }
}

/// The outcome of the operator `op` on the values `l` and `r`.
pub open spec fn finish_binary(op: BinaryOp, l: ExprView, r: ExprView, span: Span, w: World) -> Outcome {
    match apply(op, l, r) {
        Applied::Value(v) => ok(v, w),
        Applied::Mismatch => raise(
            EvalErrorKind::TypeMismatch {
                operator: Operator::Binary(op),
                left: kind_of(l),
                right: kind_of(r),
            },
            ""@,
            span,
            w,
        ),
        Applied::Float => float_result(FloatOp::Binary(op), l, r, span, w),
    }
}

/// The outcome of unary minus on the value `v`; integers wrap around.
pub open spec fn finish_negate(v: ExprView, span: Span, w: World) -> Outcome {
    match v {
        ExprView::Int(n) => ok(ExprView::Int(vstd::wrapping::i64_specs::wrapping_sub(0, n)), w),
        ExprView::Float(_) => float_result(FloatOp::Negate, v, ExprView::Null, span, w),
        _ => raise(
            EvalErrorKind::TypeMismatch {
                operator: Operator::Negate,
                left: kind_of(v),
                right: Kind::Null,
            },
            ""@,
            span,
            w,
        ),
    }
}

/// The property `property` of the value `object`.
pub open spec fn property_of(object: ExprView, property: Seq<char>) -> Result<ExprView, EvalErrorKind> {
    match object {
        ExprView::Module { symbols } => match lookup(symbols, property) {
            Some(v) => Ok(v),
            None => Err(EvalErrorKind::NoSuchProperty),
        },
        ExprView::Object { properties } => match lookup(properties, property) {
            Some(v) => Ok(v),
            None => match crate::builtins::object::method(property) {
                Some(m) => Ok(m),
                None => Err(EvalErrorKind::NoSuchProperty),
            },
        },
        ExprView::Array(_) => match crate::builtins::array::method(property) {
            Some(m) => Ok(m),
            None => Err(EvalErrorKind::NoSuchProperty),
        },
        ExprView::FFILibrary(h) => Ok(object),
        _ => Err(
            EvalErrorKind::TypeMismatch {
                operator: Operator::Property,
                left: kind_of(object),
                right: Kind::String,
            },
        ),
    }
}

/// The item of `object` that `index` selects. A negative index into an
/// array counts from the end.
pub open spec fn index_of(object: ExprView, index: ExprView) -> Result<ExprView, EvalErrorKind> {
    match (object, index) {
        (ExprView::Array(items), ExprView::Int(i)) => {
            let at = if i < 0 {
                items.len() + i
            } else {
                i as int
            };
            if 0 <= at < items.len() {
                Ok(items[at].node)
            } else {
                Err(EvalErrorKind::IndexOutOfBounds)
            }
        },
        (ExprView::Object { properties }, ExprView::String(key)) => match lookup(properties, key) {
            Some(v) => Ok(v),
            None => Err(EvalErrorKind::NoSuchProperty),
        },
        _ => Err(
            EvalErrorKind::TypeMismatch {
                operator: Operator::Index,
                left: kind_of(object),
                right: kind_of(index),
            },
        ),
    }
}

// ---------------------------------------------------------------------------
// Calls
// ---------------------------------------------------------------------------

/// Whether a formal parameter list takes any number of arguments.
pub open spec fn variadic(formal: Seq<Seq<char>>) -> bool {
    formal.len() > 0 && formal[formal.len() - 1] == "__args__"@
}

/// The arity error of a call with `actuals` where `formal` parameters are
/// due, if their numbers differ: with too many arguments the span runs over
/// the extra ones, with too few it is the call's.
pub open spec fn arity_error(formal: int, actuals: Seq<SpannedView>, call: Span) -> Option<
    EvalErrorView,
> {
    if actuals.len() > formal && formal >= 0 {
        Some(
            error(
                EvalErrorKind::ArityMismatch {
                    too_many: true,
                    count: (actuals.len() - formal) as usize,
                },
                ""@,
                Span {
                    start: actuals[formal].span.start,
                    end: actuals[actuals.len() - 1].span.end,
                },
            ),
        )
    } else if actuals.len() < formal {
        Some(
            error(
                EvalErrorKind::ArityMismatch {
                    too_many: false,
                    count: (formal - actuals.len()) as usize,
                },
                ""@,
                call,
            ),
        )
    } else {
        None
    }
}

/// `env` after binding the first `n` of the parameters `formal` to the
/// values of `actuals`, in order.
pub open spec fn bind_parameters(
    env: Bindings,
    formal: Seq<Seq<char>>,
    actuals: Seq<SpannedView>,
    n: int,
) -> Bindings
    decreases n,
{
    if n <= 0 || n > formal.len() || n > actuals.len() {
        env
    } else {
        bind(bind_parameters(env, formal, actuals, n - 1), formal[n - 1], actuals[n - 1].node)
    }
}

/// The values of the first `n` arguments as they cross to native code, or
/// `None` if one of them is of a kind that cannot cross. Integers are cut
/// to 32 bits.
pub open spec fn marshalled(args: Seq<SpannedView>, n: int) -> Option<Seq<FFIArgumentView>>
    decreases n,
{
    if n <= 0 || n > args.len() {
        Some(Seq::empty())
    } else {
        match (marshalled(args, n - 1), marshal_one(args[n - 1].node)) {
            (Some(before), Some(a)) => Some(before.push(a)),
            _ => None,
        }
    }
}

/// One value as it crosses to native code.
pub open spec fn marshal_one(v: ExprView) -> Option<FFIArgumentView> {
    match v {
        ExprView::Int(n) => Some(FFIArgumentView::Integer(n as i32)),
        ExprView::Float(f) => Some(FFIArgumentView::Float(f)),
        ExprView::String(s) => Some(FFIArgumentView::String(s)),
        ExprView::Bool(b) => Some(FFIArgumentView::Boolean(b)),
        ExprView::Null => Some(FFIArgumentView::Null),
        _ => None,
    }
}

/// The outcome of a request whose answer is the result as it stands.
pub open spec fn host_result(request: RequestView, span: Span, w: World) -> Outcome {
    let (answer, session) = asked(w.session, request, span);
    let w1 = World { env: w.env, session };
    match answer {
        Err(e) => (Err(e), w1),
        Ok(AnswerView::Failure(text)) => (Err(native_error(text, span)), w1),
        Ok(AnswerView::Value(v)) => ok(v, w1),
    }
}

/// The outcome of `print` on `args`: the line that the arguments make is
/// added to the output, or, where only the host can write them, the
/// arguments themselves.
pub open spec fn print_result(args: Seq<SpannedView>, w: World) -> Outcome {
    match crate::builtins::misc::print_spec(args) {
        Some(line) => ok(
            ExprView::Null,
            World { env: w.env, session: printed(w.session, PieceView::Text(line)) },
        ),
        None => ok(
            ExprView::Null,
            World { env: w.env, session: printed(w.session, PieceView::Values(args)) },
        ),
    }
}

/// The name of the variable that a method call changes: the receiver of a
/// property access, where it is a bare name.
pub open spec fn receiver_name(callee: SpannedView) -> Option<Seq<char>> {
    match callee.node {
        ExprView::PropertyAccess { object, property } => match object.node {
            ExprView::Identifier(name) => Some(name),
            _ => None,
        },
        _ => None,
    }
}

/// The outcome of calling the native function `func` on `actuals`. Where
/// the function hands back a replacement of its receiver and the callee is
/// a property of a bare name, the name is bound to the replacement.
pub open spec fn native_result(
    func: Native,
    actuals: Seq<SpannedView>,
    callee: SpannedView,
    span: Span,
    w: World,
) -> Outcome {
    if func is Print {
        print_result(actuals, w)
    } else {
        match pure_call(func, actuals) {
            None => host_result(RequestView::Native { func, args: actuals }, span, w),
            Some(Err((text, at))) => (Err(native_error(text, at)), w),
            Some(Ok(response)) => match (response.replace_self, receiver_name(callee)) {
                (Some(replacement), Some(name)) => ok(
                    response.return_value,
                    World { env: bind(w.env, name, replacement), session: w.session },
                ),
                _ => ok(response.return_value, w),
            },
        }
    }
}

/// The symbol that a call through a native library names: the property of
/// the callee.
pub open spec fn symbol_of(callee: SpannedView) -> Option<Seq<char>> {
    match callee.node {
        ExprView::PropertyAccess { object, property } => Some(property),
        _ => None,
    }
}

/// The outcome of calling the symbol that `callee` names in the library
/// `library`.
pub open spec fn ffi_result(
    library: crate::ast::LibraryHandle,
    callee: SpannedView,
    actuals: Seq<SpannedView>,
    span: Span,
    w: World,
) -> Outcome {
    match symbol_of(callee) {
        None => raise(EvalErrorKind::FFIError, "no symbol is named"@, span, w),
        Some(symbol) => match marshalled(actuals, actuals.len() as int) {
            None => raise(
                EvalErrorKind::FFIError,
                "Unsupported argument type for FFI call"@,
                span,
                w,
            ),
            Some(args) => {
                let (answer, session) = asked(
                    w.session,
                    RequestView::Ffi { library, symbol, args },
                    span,
                );
                let w1 = World { env: w.env, session };
                match answer {
                    Err(e) => (Err(e), w1),
                    Ok(AnswerView::Failure(text)) => raise(EvalErrorKind::FFIError, text, span, w1),
                    Ok(AnswerView::Value(v)) => ok(v, w1),
                }
            },
        },
    }
}

/// What the body of a called function hands to the caller: its value,
/// whether it returned or ran to its end. A loop signal cannot leave a
/// function.
pub open spec fn function_result(r: Result<FlowView, EvalErrorView>, span: Span) -> Result<
    FlowView,
    EvalErrorView,
> {
    match r {
        Err(e) => Err(e),
        Ok(FlowView::Continue(v)) => Ok(FlowView::Continue(v)),
        Ok(FlowView::Return(v)) => Ok(FlowView::Continue(v)),
        Ok(FlowView::Break) => Err(
            error(EvalErrorKind::UnexpectedControlFlow(Escape::Break), ""@, span),
        ),
        Ok(FlowView::Skip) => Err(
            error(EvalErrorKind::UnexpectedControlFlow(Escape::Skip), ""@, span),
        ),
    }
}

// ---------------------------------------------------------------------------
// Imports
// ---------------------------------------------------------------------------

/// The name of the environment entry that holds the path of the module
/// that is being run.
pub open spec fn module_path_key() -> Seq<char> {
    "CURRENTLY_PARSING_MODULE_PATH"@
}

/// The name of the environment entry that holds the name of the package
/// that is being run.
pub open spec fn package_name_key() -> Seq<char> {
    "CURRENTLY_PARSING_PACKAGE_NAME"@
}

/// The directory against which an import resolves: that of the module that
/// is being run, or the session's.
pub open spec fn import_base(w: World) -> Seq<char> {
    match lookup(w.env, module_path_key()) {
        Some(ExprView::String(path)) => directory_of(path),
        _ => w.session.directory,
    }
}

/// The path of the file that the module `name` is read from.
pub open spec fn source_path(name: Seq<char>, w: World) -> Seq<char> {
    import_base(w) + name
}

/// The path of the entry file of the installed package `name`.
pub open spec fn package_path(name: Seq<char>, w: World) -> Seq<char> {
    w.session.directory + ".modu/packages/"@ + name + "/lib.modu"@
}

/// The name that an import binds: the alias, or the module's name without
/// the extension of source files.
pub open spec fn import_alias(name: Seq<char>, import_as: Option<Seq<char>>) -> Seq<char> {
    match import_as {
        Some(alias) => alias,
        None => if ends_with(name, ".modu"@) {
            name.subrange(0, name.len() - 5)
        } else {
            name
        },
    }
}

/// The importing environment after taking in `symbols`: merged name by
/// name for the alias `*`, else bound as one module under the alias.
pub open spec fn imported(env: Bindings, alias: Seq<char>, symbols: Bindings) -> Bindings {
    if alias == "*"@ {
        merge(env, symbols)
    } else {
        bind(env, alias, ExprView::Module { symbols })
    }
}

/// The environment that a loaded unit starts with: the built-in functions
/// and the path of the unit, and for a package its name.
pub open spec fn unit_env(path: Seq<char>, package_name: Option<Seq<char>>) -> Bindings {
    let with_path = bind(initial(), module_path_key(), ExprView::String(path));
    match package_name {
        Some(name) => bind(with_path, package_name_key(), ExprView::String(name)),
        None => with_path,
    }
}

// ---------------------------------------------------------------------------
// Programs
// ---------------------------------------------------------------------------

/// Why a program did not run to its end.
pub enum DiagnosticView {
    /// The source is not made of tokens.
    Lex(LexingErrorView, Span),
    /// The tokens do not make statements.
    Syntax(ParseErrorView),
    /// A `return`, `break` or `continue` stands among the top-level
    /// statements.
    TopLevel(TopLevel, Span),
    /// A statement failed.
    Eval(EvalErrorView),
}

/// The statements that may not stand at the top level of a program.
#[derive(Clone, Copy, Debug, PartialEq, Eq, Structural)]
pub enum TopLevel {
    Return,
    Break,
    Continue,
}

/// The first top-level statement from position `i` on that may not stand
/// there.
pub open spec fn misplaced(stmts: Seq<SpannedView>, i: int) -> Option<(TopLevel, Span)>
    decreases stmts.len() - i,
{
    if i < 0 || i >= stmts.len() {
        None
    } else {
        match stmts[i].node {
            ExprView::Return(_) => Some((TopLevel::Return, stmts[i].span)),
            ExprView::Break => Some((TopLevel::Break, stmts[i].span)),
            ExprView::Continue => Some((TopLevel::Continue, stmts[i].span)),
            _ => misplaced(stmts, i + 1),
        }
    }
}

/// The statements of a source text, or why it has none.
pub open spec fn statements(source: Seq<char>) -> Result<Seq<SpannedView>, DiagnosticView> {
    match lex(source) {
        Err((e, span)) => Err(DiagnosticView::Lex(e, span)),
        Ok(tokens) => match parse_program(tokens) {
            Err(e) => Err(DiagnosticView::Syntax(e)),
            Ok(stmts) => match misplaced(stmts, 0) {
                Some((what, span)) => Err(DiagnosticView::TopLevel(what, span)),
                None => Ok(stmts),
            },
        },
    }
}

/// What a top-level statement's signal means for the program: only normal
/// completion lets it go on.
pub open spec fn statement_result(r: Result<FlowView, EvalErrorView>, span: Span) -> Result<
    (),
    EvalErrorView,
> {
    match r {
        Err(e) => Err(e),
        Ok(FlowView::Continue(_)) => Ok(()),
        Ok(FlowView::Return(_)) => Err(
            error(EvalErrorKind::UnexpectedControlFlow(Escape::Return), ""@, span),
        ),
        Ok(FlowView::Break) => Err(
            error(EvalErrorKind::UnexpectedControlFlow(Escape::Break), ""@, span),
        ),
        Ok(FlowView::Skip) => Err(
            error(EvalErrorKind::UnexpectedControlFlow(Escape::Skip), ""@, span),
        ),
    }
}

/// Whether a top-level statement is a bare name without a binding; such a
/// statement does nothing.
pub open spec fn idle(stmt: SpannedView, env: Bindings) -> bool {
    match stmt.node {
        ExprView::Identifier(name) => !binds(env, name),
        _ => false,
    }
}

// ---------------------------------------------------------------------------
// Evaluation
// ---------------------------------------------------------------------------

/// The outcome of evaluating the node `e` in the world `w`, where calls and
/// imports may nest `depth` deep.
///
/// Opaque: `eval_unfolds` states what it is by definition.
#[verifier::opaque]
pub open spec fn eval_spec(e: SpannedView, w: World, depth: nat) -> Outcome
    decreases depth, e, 5nat,
{
    eval_node(e, w, depth)
}

/// What `eval_spec` is by definition.
pub proof fn eval_unfolds(e: SpannedView, w: World, depth: nat)
    ensures
        eval_spec(e, w, depth) == eval_node(e, w, depth),
{
    reveal_with_fuel(eval_spec, 1);
}

/// The outcome of evaluating the node `e`, by the kind of the node.
pub open spec fn eval_node(e: SpannedView, w: World, depth: nat) -> Outcome
    decreases depth, e, 4nat,
{
    match e.node {
        ExprView::Int(_) => ok(e.node, w),
        ExprView::Float(_) => ok(e.node, w),
        ExprView::String(_) => ok(e.node, w),
        ExprView::Bool(_) => ok(e.node, w),
        ExprView::Null => ok(e.node, w),
        ExprView::Range { .. } => ok(e.node, w),
        ExprView::Object { .. } => ok(e.node, w),
        ExprView::Module { .. } => ok(e.node, w),
        ExprView::InternalFunction { .. } => ok(e.node, w),
        ExprView::FFILibrary(_) => ok(e.node, w),
        ExprView::FloatLiteral(text) => float_result(
            FloatOp::Parse,
            ExprView::String(text),
            ExprView::Null,
            e.span,
            w,
        ),
        ExprView::Identifier(name) => match lookup(w.env, name) {
            Some(v) => ok(v, w),
            None => raise(EvalErrorKind::UndefinedVariable, name, e.span, w),
        },
        ExprView::Neg(inner) => eval_negate(e, w, depth),
        ExprView::Binary { .. } => eval_binary(e, w, depth),
        ExprView::Let { .. } => eval_let(e, w, depth),
        ExprView::Function { name, .. } => ok(
            ExprView::Null,
            World { env: bind(w.env, name, e.node), session: w.session },
        ),
        ExprView::Block(stmts) => eval_block(stmts, 0, w, names(w.env), depth),
        ExprView::If { .. } => eval_if(e, w, depth),
        ExprView::InfiniteLoop { body } => eval_loop(*body, w, depth),
        ExprView::ForLoop { .. } => eval_for(e, w, depth),
        ExprView::Return(_) => eval_return(e, w, depth),
        ExprView::Break => (Ok(FlowView::Break), w),
        ExprView::Continue => (Ok(FlowView::Skip), w),
        ExprView::Array(items) => match eval_list(items, 0, Seq::empty(), w, depth) {
            (Err(e), w1) => (Err(e), w1),
            (Ok(values), w1) => ok(ExprView::Array(values), w1),
        },
        ExprView::PropertyAccess { .. } => eval_property(e, w, depth),
        ExprView::IndexAccess { .. } => eval_index(e, w, depth),
        ExprView::Call { .. } => eval_call(e, w, depth),
        ExprView::Import { name, import_as } => eval_import(e, name, import_as, e.span, w, depth),
    }
}

/// Unary minus.
pub open spec fn eval_negate(e: SpannedView, w: World, depth: nat) -> Outcome
    decreases depth, e, 3nat,
{
    match e.node {
        ExprView::Neg(inner) => match eval_spec(*inner, w, depth) {
            (Err(err), w1) => (Err(err), w1),
            (Ok(flow), w1) => finish_negate(unwrapped(flow), e.span, w1),
        },
        _ => ok(ExprView::Null, w),
    }
}

/// A binary operator: the left operand is evaluated first.
pub open spec fn eval_binary(e: SpannedView, w: World, depth: nat) -> Outcome
    decreases depth, e, 3nat,
{
    match e.node {
        ExprView::Binary { op, left, right } => match eval_spec(*left, w, depth) {
            (Err(err), w1) => (Err(err), w1),
            (Ok(l), w1) => match eval_spec(*right, w1, depth) {
                (Err(err), w2) => (Err(err), w2),
                (Ok(r), w2) => finish_binary(op, unwrapped(l), unwrapped(r), e.span, w2),
            },
        },
        _ => ok(ExprView::Null, w),
    }
}

/// `let`: the value is bound in the environment; the statement's own value
/// is null.
pub open spec fn eval_let(e: SpannedView, w: World, depth: nat) -> Outcome
    decreases depth, e, 3nat,
{
    match e.node {
        ExprView::Let { name, value } => match eval_spec(*value, w, depth) {
            (Err(err), w1) => (Err(err), w1),
            (Ok(flow), w1) => ok(
                ExprView::Null,
                World { env: bind(w1.env, name, unwrapped(flow)), session: w1.session },
            ),
        },
        _ => ok(ExprView::Null, w),
    }
}

/// `return`.
pub open spec fn eval_return(e: SpannedView, w: World, depth: nat) -> Outcome
    decreases depth, e, 3nat,
{
    match e.node {
        ExprView::Return(value) => match eval_spec(*value, w, depth) {
            (Err(err), w1) => (Err(err), w1),
            (Ok(flow), w1) => (Ok(FlowView::Return(unwrapped(flow))), w1),
        },
        _ => ok(ExprView::Null, w),
    }
}

/// The statements of a block from position `i` on. The first signal other
/// than normal completion ends the block and is handed on as it is. After
/// the last statement the bindings whose names are not in `keep` are
/// dropped, and the block's value is null.
pub open spec fn eval_block(
    stmts: Seq<SpannedView>,
    i: int,
    w: World,
    keep: Seq<Seq<char>>,
    depth: nat,
) -> Outcome
    decreases depth, stmts, stmts.len() - i + 6,
{
    if i < 0 || i >= stmts.len() {
        ok(ExprView::Null, World { env: prune(w.env, keep), session: w.session })
    } else {
        match eval_spec(stmts[i], w, depth) {
            (Err(err), w1) => (Err(err), w1),
            (Ok(FlowView::Continue(_)), w1) => eval_block(stmts, i + 1, w1, keep, depth),
            (Ok(signal), w1) => (Ok(signal), w1),
        }
    }
}

/// The values of the nodes of `items` from position `i` on, after `done`.
pub open spec fn eval_list(
    items: Seq<SpannedView>,
    i: int,
    done: Seq<SpannedView>,
    w: World,
    depth: nat,
) -> Listed
    decreases depth, items, items.len() - i + 6,
{
    if i < 0 || i >= items.len() {
        (Ok(done), w)
    } else {
        match eval_spec(items[i], w, depth) {
            (Err(err), w1) => (Err(err), w1),
            (Ok(flow), w1) => eval_list(
                items,
                i + 1,
                done.push(SpannedView { node: unwrapped(flow), span: items[i].span }),
                w1,
                depth,
            ),
        }
    }
}

/// `if`: a true condition selects the first branch, false or null the
/// second, if there is one; any other condition is a type error.
pub open spec fn eval_if(e: SpannedView, w: World, depth: nat) -> Outcome
    decreases depth, e, 3nat,
{
    match e.node {
        ExprView::If { condition, then_branch, else_branch } => match eval_spec(
            *condition,
            w,
            depth,
        ) {
            (Err(err), w1) => (Err(err), w1),
            (Ok(flow), w1) => match unwrapped(flow) {
                ExprView::Bool(true) => eval_spec(*then_branch, w1, depth),
                ExprView::Bool(false) | ExprView::Null => match else_branch {
                    Some(other) => eval_spec(*other, w1, depth),
                    None => ok(ExprView::Null, w1),
                },
                v => raise(
                    EvalErrorKind::TypeMismatch {
                        operator: Operator::Condition,
                        left: kind_of(v),
                        right: Kind::Null,
                    },
                    ""@,
                    e.span,
                    w1,
                ),
            },
        },
        _ => ok(ExprView::Null, w),
    }
}

/// `loop`: the body runs until it breaks or returns. Each iteration takes
/// one of the session's steps; with none left the loop fails.
pub open spec fn eval_loop(body: SpannedView, w: World, depth: nat) -> Outcome
    decreases depth, body, w.session.steps + 6,
{
    if w.session.steps <= 0 {
        raise(EvalErrorKind::StepLimitExceeded, ""@, body.span, w)
    } else {
        let w0 = World {
            env: w.env,
            session: SessionView { steps: w.session.steps - 1, ..w.session },
        };
        match eval_spec(body, w0, depth) {
            (Err(err), w1) => (Err(err), w1),
            (Ok(FlowView::Return(v)), w1) => (Ok(FlowView::Return(v)), w1),
            (Ok(FlowView::Break), w1) => ok(ExprView::Null, w1),
            (Ok(_), w1) => if 0 <= w1.session.steps < w.session.steps {
                eval_loop(body, w1, depth)
            } else {
                raise(EvalErrorKind::StepLimitExceeded, ""@, body.span, w1)
            },
        }
    }
}

/// `for`: the range is evaluated once, then its bounds; both must be
/// integers.
pub open spec fn eval_for(e: SpannedView, w: World, depth: nat) -> Outcome
    decreases depth, e, 3nat,
{
    match e.node {
        ExprView::ForLoop { iterator_name, iterator_range, body } => match eval_spec(
            *iterator_range,
            w,
            depth,
        ) {
            (Err(err), w1) => (Err(err), w1),
            (Ok(flow), w1) => match unwrapped(flow) {
                ExprView::Range { start, end, inclusive } => for_bounds(
                    e,
                    iterator_name,
                    *start,
                    *end,
                    inclusive,
                    e.span,
                    w1,
                    depth,
                ),
                v => raise(
                    EvalErrorKind::TypeMismatch {
                        operator: Operator::Iterate,
                        left: kind_of(v),
                        right: Kind::Null,
                    },
                    ""@,
                    e.span,
                    w1,
                ),
            },
        },
        _ => ok(ExprView::Null, w),
    }
}

/// The loop over the range from `start` to `end`, whose bounds are still
/// to be evaluated. The bounds are values that an earlier evaluation made,
/// so evaluating them counts as one level of nesting.
pub open spec fn for_bounds(
    e: SpannedView,
    name: Seq<char>,
    start: SpannedView,
    end: SpannedView,
    inclusive: bool,
    span: Span,
    w: World,
    depth: nat,
) -> Outcome
    decreases depth, e, 2nat,
{
    if !(e.node is ForLoop) {
        ok(ExprView::Null, w)
    } else if depth == 0 {
        raise(EvalErrorKind::RecursionLimitExceeded, ""@, span, w)
    } else {
        match eval_spec(start, w, (depth - 1) as nat) {
            (Err(err), w1) => (Err(err), w1),
            (Ok(first), w1) => match unwrapped(first) {
                ExprView::Int(from) => match eval_spec(end, w1, (depth - 1) as nat) {
                    (Err(err), w2) => (Err(err), w2),
                    (Ok(last), w2) => match unwrapped(last) {
                        ExprView::Int(to) => eval_iterations(
                            name,
                            from as int,
                            if inclusive {
                                to + 1
                            } else {
                                to as int
                            },
                            *e.node->ForLoop_body,
                            w2,
                            depth,
                        ),
                        v => raise(
                            EvalErrorKind::TypeMismatch {
                                operator: Operator::RangeEnd,
                                left: kind_of(v),
                                right: Kind::Null,
                            },
                            ""@,
                            span,
                            w2,
                        ),
                    },
                },
                v => raise(
                    EvalErrorKind::TypeMismatch {
                        operator: Operator::RangeStart,
                        left: kind_of(v),
                        right: Kind::Null,
                    },
                    ""@,
                    span,
                    w1,
                ),
            },
        }
    }
}

/// The iterations of a `for` loop for the integers from `i` up to, not
/// including, `end`: each binds the loop variable in the environment and runs
/// the body. `break` ends the loop, `continue` the iteration.
pub open spec fn eval_iterations(
    name: Seq<char>,
    i: int,
    end: int,
    body: SpannedView,
    w: World,
    depth: nat,
) -> Outcome
    decreases depth, body, end - i + 6,
{
    if i >= end {
        ok(ExprView::Null, w)
    } else {
        let w0 = World { env: bind(w.env, name, ExprView::Int(i as i64)), session: w.session };
        match eval_spec(body, w0, depth) {
            (Err(err), w1) => (Err(err), w1),
            (Ok(FlowView::Return(v)), w1) => (Ok(FlowView::Return(v)), w1),
            (Ok(FlowView::Break), w1) => ok(ExprView::Null, w1),
            (Ok(_), w1) => eval_iterations(name, i + 1, end, body, w1, depth),
        }
    }
}

/// A property access.
pub open spec fn eval_property(e: SpannedView, w: World, depth: nat) -> Outcome
    decreases depth, e, 3nat,
{
    match e.node {
        ExprView::PropertyAccess { object, property } => match eval_spec(*object, w, depth) {
            (Err(err), w1) => (Err(err), w1),
            (Ok(flow), w1) => match property_of(unwrapped(flow), property) {
                Ok(v) => ok(v, w1),
                Err(kind) => raise(kind, property, e.span, w1),
            },
        },
        _ => ok(ExprView::Null, w),
    }
}

/// An index access: the object is evaluated first.
pub open spec fn eval_index(e: SpannedView, w: World, depth: nat) -> Outcome
    decreases depth, e, 3nat,
{
    match e.node {
        ExprView::IndexAccess { object, index } => match eval_spec(*object, w, depth) {
            (Err(err), w1) => (Err(err), w1),
            (Ok(o), w1) => match eval_spec(*index, w1, depth) {
                (Err(err), w2) => (Err(err), w2),
                (Ok(i), w2) => match index_of(unwrapped(o), unwrapped(i)) {
                    Ok(v) => ok(v, w2),
                    Err(kind) => raise(kind, ""@, e.span, w2),
                },
            },
        },
        _ => ok(ExprView::Null, w),
    }
}

/// The value of the callee of a call. A bare name without a binding is an
/// undefined function.
pub open spec fn eval_callee(callee: SpannedView, w: World, depth: nat) -> Outcome
    decreases depth, callee, 6nat,
{
    match callee.node {
        ExprView::Identifier(name) => match lookup(w.env, name) {
            Some(v) => ok(v, w),
            None => raise(EvalErrorKind::UndefinedFunction, name, callee.span, w),
        },
        _ => eval_spec(callee, w, depth),
    }
}

/// A call: the arguments are evaluated from left to right, then the callee.
pub open spec fn eval_call(e: SpannedView, w: World, depth: nat) -> Outcome
    decreases depth, e, 3nat,
{
    match e.node {
        ExprView::Call { callee, args } => match eval_list(args, 0, Seq::empty(), w, depth) {
            (Err(err), w1) => (Err(err), w1),
            (Ok(actuals), w1) => match eval_callee(*callee, w1, depth) {
                (Err(err), w2) => (Err(err), w2),
                (Ok(flow), w2) => match unwrapped(flow) {
                    ExprView::InternalFunction { name, args: formal, func } => call_native(
                        *callee,
                        formal,
                        func,
                        actuals,
                        e.span,
                        w2,
                        depth,
                    ),
                    ExprView::Function { name, args: formal, body } => call_function(
                        e,
                        formal,
                        *body,
                        actuals,
                        e.span,
                        w2,
                        depth,
                    ),
                    ExprView::FFILibrary(library) => ffi_result(library, *callee, actuals, e.span, w2),
                    v => raise(EvalErrorKind::NotAFunction, ""@, e.span, w2),
                },
            },
        },
        _ => ok(ExprView::Null, w),
    }
}

/// The receiver of a method call: the object of the property access that
/// the callee is, where the function has a parameter called `self`.
pub open spec fn receiver(callee: SpannedView, formal: Seq<Seq<char>>) -> Option<SpannedView> {
    if formal.contains("self"@) {
        match callee.node {
            ExprView::PropertyAccess { object, property } => Some(*object),
            _ => None,
        }
    } else {
        None
    }
}

/// The call of a native function. For a method the receiver is evaluated
/// and comes first among the arguments. Unless the function is variadic,
/// the number of arguments must be that of the parameters.
pub open spec fn call_native(
    callee: SpannedView,
    formal: Seq<Seq<char>>,
    func: Native,
    actuals: Seq<SpannedView>,
    span: Span,
    w: World,
    depth: nat,
) -> Outcome
    decreases depth, callee, 6nat,
{
    match receiver(callee, formal) {
        Some(object) => match eval_spec(object, w, depth) {
            (Err(err), w1) => (Err(err), w1),
            (Ok(flow), w1) => finish_native(
                callee,
                formal,
                func,
                seq![SpannedView { node: unwrapped(flow), span: object.span }] + actuals,
                span,
                w1,
            ),
        },
        None => finish_native(callee, formal, func, actuals, span, w),
    }
}

/// The call of a native function on all its arguments.
pub open spec fn finish_native(
    callee: SpannedView,
    formal: Seq<Seq<char>>,
    func: Native,
    actuals: Seq<SpannedView>,
    span: Span,
    w: World,
) -> Outcome {
    if variadic(formal) {
        native_result(func, actuals, callee, span, w)
    } else {
        match arity_error(formal.len() as int, actuals, span) {
            Some(err) => (Err(err), w),
            None => native_result(func, actuals, callee, span, w),
        }
    }
}

/// The call of a function of the program: the body runs in a copy of the
/// caller's environment in which the parameters are bound. What the body
/// does to its environment is lost; what it does to the session stays.
pub open spec fn call_function(
    e: SpannedView,
    formal: Seq<Seq<char>>,
    body: SpannedView,
    actuals: Seq<SpannedView>,
    span: Span,
    w: World,
    depth: nat,
) -> Outcome
    decreases depth, e, 2nat,
{
    match arity_error(formal.len() as int, actuals, span) {
        Some(err) => (Err(err), w),
        None => if depth == 0 {
            raise(EvalErrorKind::RecursionLimitExceeded, ""@, span, w)
        } else {
            let inner = World {
                env: bind_parameters(w.env, formal, actuals, formal.len() as int),
                session: w.session,
            };
            let (r, after) = eval_spec(body, inner, (depth - 1) as nat);
            (function_result(r, span), World { env: w.env, session: after.session })
        },
    }
}

/// `import`.
pub open spec fn eval_import(
    e: SpannedView,
    name: Seq<char>,
    import_as: Option<Seq<char>>,
    span: Span,
    w: World,
    depth: nat,
) -> Outcome
    decreases depth, e, 3nat,
{
    let alias = import_alias(name, import_as);
    if ends_with(name, ".modu"@) {
        load_unit(e, source_path(name, w), None, alias, span, w, depth)
    } else {
        match package(name, w.session.sandbox, w.session.platform) {
            Some(symbols) => ok(
                ExprView::Null,
                World { env: imported(w.env, alias, symbols), session: w.session },
            ),
            None => {
                let path = package_path(name, w);
                let (answer, session) = asked(w.session, RequestView::FileExists { path }, span);
                let w1 = World { env: w.env, session };
                match answer {
                    Err(e) => (Err(e), w1),
                    Ok(AnswerView::Value(ExprView::Bool(true))) => load_unit(
                        e,
                        path,
                        Some(name),
                        alias,
                        span,
                        w1,
                        depth,
                    ),
                    Ok(AnswerView::Value(ExprView::Bool(false))) => raise(
                        EvalErrorKind::ImportFailed(ImportFailure::NotFound),
                        name,
                        span,
                        w1,
                    ),
                    Ok(AnswerView::Failure(text)) => raise(
                        EvalErrorKind::ImportFailed(ImportFailure::NotFound),
                        text,
                        span,
                        w1,
                    ),
                    Ok(AnswerView::Value(_)) => raise(EvalErrorKind::BadAnswer, ""@, span, w1),
                }
            },
        }
    }
}

/// Reads the source file at `path`, runs it in an environment of its own
/// and takes what it has defined into the importing environment.
pub open spec fn load_unit(
    e: SpannedView,
    path: Seq<char>,
    package_name: Option<Seq<char>>,
    alias: Seq<char>,
    span: Span,
    w: World,
    depth: nat,
) -> Outcome
    decreases depth, e, 2nat,
{
    let (answer, session) = asked(w.session, RequestView::ReadFile { path }, span);
    let w1 = World { env: w.env, session };
    match answer {
        Err(e) => (Err(e), w1),
        Ok(AnswerView::Failure(text)) => raise(
            EvalErrorKind::ImportFailed(ImportFailure::Unreadable),
            text,
            span,
            w1,
        ),
        Ok(AnswerView::Value(ExprView::String(source))) => if depth == 0 {
            raise(EvalErrorKind::RecursionLimitExceeded, ""@, span, w1)
        } else {
            match statements(source) {
                Err(_) => raise(
                    EvalErrorKind::ImportFailed(ImportFailure::ParseFailed),
                    path,
                    span,
                    w1,
                ),
                Ok(stmts) => {
                    let seeded = unit_env(path, package_name);
                    let (r, after) = run(
                        stmts,
                        0,
                        World { env: seeded, session: w1.session },
                        (depth - 1) as nat,
                    );
                    match r {
                        Err(e) => (Err(e), World { env: w1.env, session: after.session }),
                        Ok(()) => ok(
                            ExprView::Null,
                            World {
                                env: imported(w1.env, alias, beyond(after.env, seeded)),
                                session: after.session,
                            },
                        ),
                    }
                },
            }
        },
        Ok(AnswerView::Value(_)) => raise(EvalErrorKind::BadAnswer, ""@, span, w1),
    }
}

/// The top-level statements of a program from position `i` on, in order.
/// The first failure ends the run.
pub open spec fn run(stmts: Seq<SpannedView>, i: int, w: World, depth: nat) -> Ran
    decreases depth, stmts, stmts.len() - i + 6,
{
    if i < 0 || i >= stmts.len() {
        (Ok(()), w)
    } else if idle(stmts[i], w.env) {
        run(stmts, i + 1, w, depth)
    } else {
        let (r, w1) = eval_spec(stmts[i], w, depth);
        match statement_result(r, stmts[i].span) {
            Err(e) => (Err(e), w1),
            Ok(()) => run(stmts, i + 1, w1, depth),
        }
    }
}

/// The outcome of running a program from its source text.
pub open spec fn run_source(source: Seq<char>, w: World, depth: nat) -> (
    Result<(), DiagnosticView>,
    World,
) {
    match statements(source) {
        Err(d) => (Err(d), w),
        Ok(stmts) => match run(stmts, 0, w, depth) {
            (Err(e), w1) => (Err(DiagnosticView::Eval(e)), w1),
            (Ok(()), w1) => (Ok(()), w1),
        },
    }
}

} // verus!
