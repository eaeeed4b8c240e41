//! What evaluation hands back: control-flow signals and errors, and how
//! values are classified and written out.

use crate::ast::{nodes_view, BinaryOp, Expr, ExprView, Span, SpannedExpr, SpannedView};
use crate::text::{int_text, push_char, push_text};
use vstd::prelude::*;

verus! {

/// The kinds of values, as type errors name them.
#[derive(Clone, Copy, Debug, PartialEq, Eq, Structural)]
pub enum Kind {
    Int,
    Float,
    String,
    Bool,
    Null,
    Array,
    Object,
    Function,
    Module,
    Library,
    Range,
    /// A syntax node that is not a value.
    Syntax,
}

/// The kind of a value.
pub open spec fn kind_of(v: ExprView) -> Kind {
    match v {
        ExprView::Int(_) => Kind::Int,
        ExprView::Float(_) => Kind::Float,
        ExprView::FloatLiteral(_) => Kind::Float,
        ExprView::String(_) => Kind::String,
        ExprView::Bool(_) => Kind::Bool,
        ExprView::Null => Kind::Null,
        ExprView::Array(_) => Kind::Array,
        ExprView::Object { .. } => Kind::Object,
        ExprView::Function { .. } => Kind::Function,
        ExprView::InternalFunction { .. } => Kind::Function,
        ExprView::Module { .. } => Kind::Module,
        ExprView::FFILibrary(_) => Kind::Library,
        ExprView::Range { .. } => Kind::Range,
        _ => Kind::Syntax,
    }
}

/// The kind of a value.
pub fn kind(v: &Expr) -> (r: Kind)
    ensures
        r == kind_of(v@),
{
    match v {
        Expr::Int(_) => Kind::Int,
        Expr::Float(_) => Kind::Float,
        Expr::FloatLiteral(_) => Kind::Float,
        Expr::String(_) => Kind::String,
        Expr::Bool(_) => Kind::Bool,
        Expr::Null => Kind::Null,
        Expr::Array(_) => Kind::Array,
        Expr::Object { .. } => Kind::Object,
        Expr::Function { .. } => Kind::Function,
        Expr::InternalFunction { .. } => Kind::Function,
        Expr::Module { .. } => Kind::Module,
        Expr::FFILibrary(_) => Kind::Library,
        Expr::Range { .. } => Kind::Range,
        _ => Kind::Syntax,
    }
}

/// What an operand was used for when its kind did not fit.
#[derive(Clone, Copy, Debug, PartialEq, Eq, Structural)]
pub enum Operator {
    Binary(BinaryOp),
    Negate,
    Condition,
    RangeStart,
    RangeEnd,
    Iterate,
    Index,
    Property,
}

/// The signals that were met where nothing can take them.
#[derive(Clone, Copy, Debug, PartialEq, Eq, Structural)]
pub enum Escape {
    Break,
    Skip,
    Return,
}

/// Why an import failed.
#[derive(Clone, Copy, Debug, PartialEq, Eq, Structural)]
pub enum ImportFailure {
    NotFound,
    ParseFailed,
    Unreadable,
}

/// The kinds of evaluation errors.
#[derive(Clone, Copy, Debug, PartialEq, Eq, Structural)]
pub enum EvalErrorKind {
    UndefinedVariable,
    UndefinedFunction,
    NotAFunction,
    ArityMismatch { too_many: bool, count: usize },
    TypeMismatch { operator: Operator, left: Kind, right: Kind },
    DivisionByZero,
    IndexOutOfBounds,
    NoSuchProperty,
    ImportFailed(ImportFailure),
    FFIError,
    UnexpectedControlFlow(Escape),
    RecursionLimitExceeded,
    StepLimitExceeded,
    /// A native function reported a failure; the message is its own.
    Native,
    /// The evaluation stopped to wait for an answer of the host.
    Suspended,
    /// The host's answer does not fit the request it answers.
    BadAnswer,
}

/// An evaluation error: its kind, a message, a short form of the message
/// for annotating the source, and the span it is about.
#[derive(Debug)]
pub struct EvalError {
    pub kind: EvalErrorKind,
    pub message: String,
    pub message_short: String,
    pub span: Span,
}

/// Mirror of `EvalError`.
pub struct EvalErrorView {
    pub kind: EvalErrorKind,
    pub message: Seq<char>,
    pub message_short: Seq<char>,
    pub span: Span,
}

impl View for EvalError {
    type V = EvalErrorView;

    open spec fn view(&self) -> EvalErrorView {
        EvalErrorView {
            kind: self.kind,
            message: self.message@,
            message_short: self.message_short@,
            span: self.span,
        }
    }
}

/// The short message of an error kind.
pub open spec fn short_text(kind: EvalErrorKind) -> Seq<char> {
    match kind {
        EvalErrorKind::UndefinedVariable => "not defined"@,
        EvalErrorKind::UndefinedFunction => "function not defined"@,
        EvalErrorKind::NotAFunction => "not a function"@,
        EvalErrorKind::ArityMismatch { too_many, count } => if too_many {
            int_text(count as int) + " arguments too many"@
        } else {
            int_text(count as int) + " arguments too few"@
        },
        EvalErrorKind::TypeMismatch { operator, .. } => match operator {
            Operator::Binary(BinaryOp::Add) => "cannot add"@,
            Operator::Binary(BinaryOp::Sub) => "cannot subtract"@,
            Operator::Binary(_) => "cannot compare"@,
            Operator::Negate => "cannot negate"@,
            Operator::Condition => "invalid condition"@,
            Operator::RangeStart => "invalid range start"@,
            Operator::RangeEnd => "invalid range end"@,
            Operator::Iterate => "cannot iterate"@,
            Operator::Index => "cannot index"@,
            Operator::Property => "cannot access property"@,
        },
        EvalErrorKind::DivisionByZero => "division by zero"@,
        EvalErrorKind::IndexOutOfBounds => "index out of bounds"@,
        EvalErrorKind::NoSuchProperty => "no such property"@,
        EvalErrorKind::ImportFailed(why) => match why {
            ImportFailure::NotFound => "package not found"@,
            ImportFailure::ParseFailed => "failed to parse module"@,
            ImportFailure::Unreadable => "failed to read module"@,
        },
        EvalErrorKind::FFIError => "native call failed"@,
        EvalErrorKind::UnexpectedControlFlow(escape) => match escape {
            Escape::Break => "unexpected break"@,
            Escape::Skip => "unexpected skip"@,
            Escape::Return => "unexpected return"@,
        },
        EvalErrorKind::RecursionLimitExceeded => "recursion limit exceeded"@,
        EvalErrorKind::StepLimitExceeded => "step limit exceeded"@,
        EvalErrorKind::Native => "native function failed"@,
        EvalErrorKind::Suspended => "waiting for the host"@,
        EvalErrorKind::BadAnswer => "unexpected answer of the host"@,
    }
}

/// The name of a kind of values.
pub open spec fn kind_name(kind: Kind) -> Seq<char> {
    match kind {
        Kind::Int => "Int"@,
        Kind::Float => "Float"@,
        Kind::String => "String"@,
        Kind::Bool => "Bool"@,
        Kind::Null => "Null"@,
        Kind::Array => "Array"@,
        Kind::Object => "Object"@,
        Kind::Function => "Function"@,
        Kind::Module => "Module"@,
        Kind::Library => "Library"@,
        Kind::Range => "Range"@,
        Kind::Syntax => "Syntax"@,
    }
}

/// What the message of an error says after the short text and a colon: for
/// a type mismatch the kinds of both operands, else the detail.
pub open spec fn detail_text(kind: EvalErrorKind, detail: Seq<char>) -> Seq<char> {
    match kind {
        EvalErrorKind::TypeMismatch { operator, left, right } => kind_name(left) + " and "@
            + kind_name(right),
        _ => detail,
    }
}

/// The message of an error: the short text and, where there is something
/// to add, a colon and the operand kinds or the detail.
pub open spec fn message_text(kind: EvalErrorKind, detail: Seq<char>) -> Seq<char> {
    if detail_text(kind, detail).len() == 0 {
        short_text(kind)
    } else {
        short_text(kind) + ": "@ + detail_text(kind, detail)
    }
}

/// The error of kind `kind` about `detail` (a name or a text) at `span`.
pub open spec fn error(kind: EvalErrorKind, detail: Seq<char>, span: Span) -> EvalErrorView {
    EvalErrorView {
        kind,
        message: message_text(kind, detail),
        message_short: short_text(kind),
        span,
    }
}

/// The kind of the error that a native function reported with the message
/// `text`: a division by zero where the message says so.
pub open spec fn native_kind(text: Seq<char>) -> EvalErrorKind {
    if text == "division by zero"@ {
        EvalErrorKind::DivisionByZero
    } else {
        EvalErrorKind::Native
    }
}

/// The error that a native function reported with the message `text`.
pub open spec fn native_error(text: Seq<char>, span: Span) -> EvalErrorView {
    EvalErrorView { kind: native_kind(text), message: text, message_short: text, span }
}

fn name_of_kind(kind: Kind) -> (r: &'static str)
    ensures
        r@ == kind_name(kind),
{
    match kind {
        Kind::Int => "Int",
        Kind::Float => "Float",
        Kind::String => "String",
        Kind::Bool => "Bool",
        Kind::Null => "Null",
        Kind::Array => "Array",
        Kind::Object => "Object",
        Kind::Function => "Function",
        Kind::Module => "Module",
        Kind::Library => "Library",
        Kind::Range => "Range",
        Kind::Syntax => "Syntax",
    }
}

fn short_message(kind: EvalErrorKind) -> (r: String)
    ensures
        r@ == short_text(kind),
{
    match kind {
        EvalErrorKind::UndefinedVariable => String::from_str("not defined"),
        EvalErrorKind::UndefinedFunction => String::from_str("function not defined"),
        EvalErrorKind::NotAFunction => String::from_str("not a function"),
        EvalErrorKind::ArityMismatch { too_many, count } => {
            let mut s = String::new();
            crate::text::push_nat(&mut s, count as u64);
            if too_many {
                push_text(&mut s, " arguments too many");
            } else {
                push_text(&mut s, " arguments too few");
            }
            assert(s@ =~= short_text(kind));
            s
        },
        EvalErrorKind::TypeMismatch { operator, .. } => match operator {
            Operator::Binary(BinaryOp::Add) => String::from_str("cannot add"),
            Operator::Binary(BinaryOp::Sub) => String::from_str("cannot subtract"),
            Operator::Binary(_) => String::from_str("cannot compare"),
            Operator::Negate => String::from_str("cannot negate"),
            Operator::Condition => String::from_str("invalid condition"),
            Operator::RangeStart => String::from_str("invalid range start"),
            Operator::RangeEnd => String::from_str("invalid range end"),
            Operator::Iterate => String::from_str("cannot iterate"),
            Operator::Index => String::from_str("cannot index"),
            Operator::Property => String::from_str("cannot access property"),
        },
        EvalErrorKind::DivisionByZero => String::from_str("division by zero"),
        EvalErrorKind::IndexOutOfBounds => String::from_str("index out of bounds"),
        EvalErrorKind::NoSuchProperty => String::from_str("no such property"),
        EvalErrorKind::ImportFailed(why) => match why {
            ImportFailure::NotFound => String::from_str("package not found"),
            ImportFailure::ParseFailed => String::from_str("failed to parse module"),
            ImportFailure::Unreadable => String::from_str("failed to read module"),
        },
        EvalErrorKind::FFIError => String::from_str("native call failed"),
        EvalErrorKind::UnexpectedControlFlow(escape) => match escape {
            Escape::Break => String::from_str("unexpected break"),
            Escape::Skip => String::from_str("unexpected skip"),
            Escape::Return => String::from_str("unexpected return"),
        },
        EvalErrorKind::RecursionLimitExceeded => String::from_str("recursion limit exceeded"),
        EvalErrorKind::StepLimitExceeded => String::from_str("step limit exceeded"),
        EvalErrorKind::Native => String::from_str("native function failed"),
        EvalErrorKind::Suspended => String::from_str("waiting for the host"),
        EvalErrorKind::BadAnswer => String::from_str("unexpected answer of the host"),
    }
}

impl EvalError {
    /// The error of kind `kind` about `detail` at `span`.
    pub fn new(kind: EvalErrorKind, detail: &str, span: Span) -> (r: EvalError)
        ensures
            r@ == error(kind, detail@, span),
    {
        let message_short = short_message(kind);
        let mut message = message_short.clone();
        match kind {
            EvalErrorKind::TypeMismatch { operator, left, right } => {
                push_text(&mut message, ": ");
                push_text(&mut message, name_of_kind(left));
                push_text(&mut message, " and ");
                push_text(&mut message, name_of_kind(right));
                proof {
                    reveal_strlit(" and ");
                    assert(detail_text(kind, detail@).len() > 0);
                    assert(message@ =~= short_text(kind) + ": "@ + detail_text(kind, detail@));
                }
            },
            _ => {
                if !detail.is_empty() {
                    push_text(&mut message, ": ");
                    push_text(&mut message, detail);
                }
            },
        }
        EvalError { kind, message, message_short, span }
    }

    /// The error that a native function reported with the message `text`.
    pub fn native(text: String, span: Span) -> (r: EvalError)
        ensures
            r@ == native_error(text@, span),
    {
        let message_short = text.clone();
        let kind = if crate::text::same_text(text.as_str(), "division by zero") {
            EvalErrorKind::DivisionByZero
        } else {
            EvalErrorKind::Native
        };
        EvalError { kind, message: text, message_short, span }
    }

    /// The message, as text.
    pub fn to_text(&self) -> (r: String)
        ensures
            r@ == self@.message,
    {
        self.message.clone()
    }
}

/// The result signal of an evaluation: normal completion with a value, or
/// one of the signals that unwind to a function or a loop.
#[derive(Debug)]
pub enum Flow {
    Continue(Expr),
    Return(Expr),
    Break,
    Skip,
}

/// Mirror of `Flow`.
pub enum FlowView {
    Continue(ExprView),
    Return(ExprView),
    Break,
    Skip,
}

impl View for Flow {
    type V = FlowView;

    open spec fn view(&self) -> FlowView {
        match self {
            Flow::Continue(v) => FlowView::Continue(v@),
            Flow::Return(v) => FlowView::Return(v@),
            Flow::Break => FlowView::Break,
            Flow::Skip => FlowView::Skip,
        }
    }
}

/// The value that a signal carries; the loop signals carry null.
pub open spec fn unwrapped(flow: FlowView) -> ExprView {
    match flow {
        FlowView::Continue(v) => v,
        FlowView::Return(v) => v,
        FlowView::Break => ExprView::Null,
        FlowView::Skip => ExprView::Null,
    }
}

impl Flow {
    /// The value that the signal carries; the loop signals carry null.
    pub fn unwrap(self) -> (r: Expr)
        ensures
            r@ == unwrapped(self@),
    {
        match self {
            Flow::Continue(v) => v,
            Flow::Return(v) => v,
            Flow::Break => Expr::Null,
            Flow::Skip => Expr::Null,
        }
    }
}

// ---------------------------------------------------------------------------
// Writing values out
// ---------------------------------------------------------------------------

/// The value of a hexadecimal digit, or -1.
pub open spec fn hex_value(c: char) -> int {
    if '0' <= c <= '9' {
        c as int - '0' as int
    } else if 'a' <= c <= 'f' {
        c as int - 'a' as int + 10
    } else if 'A' <= c <= 'F' {
        c as int - 'A' as int + 10
    } else {
        -1
    }
}

/// The text of `s` from position `i` on with its escape sequences resolved:
/// `\n`, `\t`, `\r`, `\"`, `\'`, `\\` and `\xHH`. An unknown escape stands
/// for itself.
pub open spec fn unescape_from(s: Seq<char>, i: int) -> Seq<char>
    decreases s.len() - i,
{
    if i < 0 || i >= s.len() {
        Seq::empty()
    } else if s[i] == '\\' && i + 1 < s.len() {
        let c = s[i + 1];
        if c == 'n' {
            seq!['\n'] + unescape_from(s, i + 2)
        } else if c == 't' {
            seq!['\t'] + unescape_from(s, i + 2)
        } else if c == 'r' {
            seq!['\r'] + unescape_from(s, i + 2)
        } else if c == '"' || c == '\'' || c == '\\' {
            seq![c] + unescape_from(s, i + 2)
        } else if c == 'x' && i + 3 < s.len() && hex_value(s[i + 2]) >= 0 && hex_value(s[i + 3]) >= 0 {
            seq![((hex_value(s[i + 2]) * 16 + hex_value(s[i + 3])) as u8) as char] + unescape_from(
                s,
                i + 4,
            )
        } else {
            seq!['\\'] + unescape_from(s, i + 1)
        }
    } else {
        seq![s[i]] + unescape_from(s, i + 1)
    }
}

/// The text of a string value as it is printed.
pub open spec fn unescape(s: Seq<char>) -> Seq<char> {
    unescape_from(s, 0)
}

fn hex_digit(c: char) -> (r: Option<u8>)
    ensures
        match r {
            Some(v) => v as int == hex_value(c) && v < 16,
            None => hex_value(c) < 0,
        },
{
    if '0' <= c && c <= '9' {
        Some(((c as u32) - ('0' as u32)) as u8)
    } else if 'a' <= c && c <= 'f' {
        Some(((c as u32) - ('a' as u32) + 10) as u8)
    } else if 'A' <= c && c <= 'F' {
        Some(((c as u32) - ('A' as u32) + 10) as u8)
    } else {
        None
    }
}

/// Appends `text` to `out` with its escape sequences resolved.
pub fn push_unescaped(out: &mut String, text: &str)
    ensures
        final(out)@ == old(out)@ + unescape(text@),
{
    let cs = crate::text::chars_of(text);
    let mut i: usize = 0;
    let ghost start = out@;
    assert(out@ + unescape_from(cs@, 0) == start + unescape(text@));
    while i < cs.len()
        invariant
            i <= cs.len(),
            cs@ == text@,
            out@ + unescape_from(cs@, i as int) == start + unescape(text@),
        decreases cs.len() - i,
    {
        let ghost before = out@;
        let c = cs[i];
        if c == '\\' && cs.len() - i > 1 {
            let d = cs[i + 1];
            if d == 'n' {
                push_char(out, '\n');
                assert(out@ + unescape_from(cs@, i + 2) =~= before + unescape_from(cs@, i as int));
                i += 2;
            } else if d == 't' {
                push_char(out, '\t');
                assert(out@ + unescape_from(cs@, i + 2) =~= before + unescape_from(cs@, i as int));
                i += 2;
            } else if d == 'r' {
                push_char(out, '\r');
                assert(out@ + unescape_from(cs@, i + 2) =~= before + unescape_from(cs@, i as int));
                i += 2;
            } else if d == '"' || d == '\'' || d == '\\' {
                push_char(out, d);
                assert(out@ + unescape_from(cs@, i + 2) =~= before + unescape_from(cs@, i as int));
                i += 2;
            } else {
                let mut done = false;
                if d == 'x' && cs.len() - i > 3 {
                    let hi = hex_digit(cs[i + 2]);
                    let lo = hex_digit(cs[i + 3]);
                    match (hi, lo) {
                        (Some(h), Some(l)) => {
                            let byte: u8 = h * 16 + l;
                            push_char(out, byte as char);
                            assert(out@ + unescape_from(cs@, i + 4) =~= before + unescape_from(
                                cs@,
                                i as int,
                            ));
                            i += 4;
                            done = true;
                        },
                        _ => {},
                    }
                }
                if !done {
                    push_char(out, '\\');
                    assert(out@ + unescape_from(cs@, i + 1) =~= before + unescape_from(cs@, i as int));
                    i += 1;
                }
            }
        } else {
            push_char(out, c);
            assert(out@ + unescape_from(cs@, i + 1) =~= before + unescape_from(cs@, i as int));
            i += 1;
        }
    }
    assert(unescape_from(cs@, cs@.len() as int) =~= Seq::<char>::empty());
    assert(out@ + Seq::<char>::empty() =~= out@);
}

/// The text of `s` from position `i` on as it stands between quotes when
/// an object is written: a double quote, a line feed and a tab are written
/// as escape sequences.
pub open spec fn quoted_from(s: Seq<char>, i: int) -> Seq<char>
    decreases s.len() - i,
{
    if i < 0 || i >= s.len() {
        Seq::empty()
    } else if s[i] == '"' {
        seq!['\\', '"'] + quoted_from(s, i + 1)
    } else if s[i] == '\n' {
        seq!['\\', 'n'] + quoted_from(s, i + 1)
    } else if s[i] == '\t' {
        seq!['\\', 't'] + quoted_from(s, i + 1)
    } else {
        seq![s[i]] + quoted_from(s, i + 1)
    }
}

/// A text between double quotes, as an object's string property is
/// written.
pub open spec fn quoted(s: Seq<char>) -> Seq<char> {
    "\""@ + quoted_from(s, 0) + "\""@
}

/// The text of a value as `print` writes it, for the values that the
/// library can write by itself: integers, strings (with their escape
/// sequences resolved), booleans, null, and arrays and objects of such
/// values. `None` for the others, which the host writes: floating-point
/// numbers, functions, modules and libraries.
pub open spec fn plain_text(v: ExprView) -> Option<Seq<char>>
    decreases v, 0nat,
{
    match v {
        ExprView::Int(n) => Some(int_text(n as int)),
        ExprView::String(s) => Some(unescape(s)),
        ExprView::Bool(b) => Some(
            if b {
                "true"@
            } else {
                "false"@
            },
        ),
        ExprView::Null => Some("null"@),
        ExprView::Array(items) => match listed_texts(items, items.len() as int) {
            Some(t) => Some("["@ + t + "]"@),
            None => None,
        },
        ExprView::Object { properties } => if properties.len() == 0 {
            Some("{ }"@)
        } else {
            match member_texts(properties, properties.len() as int) {
                Some(t) => Some("{ "@ + t + " }"@),
                None => None,
            }
        },
        _ => None,
    }
}

/// The texts of the first `n` items of an array, separated by a comma and a
/// blank.
pub open spec fn listed_texts(items: Seq<SpannedView>, n: int) -> Option<Seq<char>>
    decreases items, n,
{
    if n <= 0 || n > items.len() {
        Some(Seq::empty())
    } else {
        match (listed_texts(items, n - 1), plain_text(items[n - 1].node)) {
            (Some(before), Some(t)) => Some(
                before + (if n > 1 {
                    ", "@
                } else {
                    ""@
                }) + t,
            ),
            _ => None,
        }
    }
}

/// The text of a property's value in a written object: a string stands
/// between quotes.
pub open spec fn member_value(v: ExprView) -> Option<Seq<char>>
    decreases v, 1nat,
{
    match v {
        ExprView::String(s) => Some(quoted(s)),
        _ => plain_text(v),
    }
}

/// The texts of the first `n` properties of an object, each as its name
/// between quotes, a colon and its value, separated by a comma and a blank.
pub open spec fn member_texts(props: Seq<crate::ast::BindingView>, n: int) -> Option<Seq<char>>
    decreases props, n,
{
    if n <= 0 || n > props.len() {
        Some(Seq::empty())
    } else {
        match (member_texts(props, n - 1), member_value(props[n - 1].value)) {
            (Some(before), Some(t)) => Some(
                before + (if n > 1 {
                    ", "@
                } else {
                    ""@
                }) + "\""@ + props[n - 1].name + "\": "@ + t,
            ),
            _ => None,
        }
    }
}

/// The texts of the first `n` values of `args`, one after the other, or
/// `None` if one of them is not plain.
pub open spec fn plain_texts(args: Seq<SpannedView>, n: int) -> Option<Seq<char>>
    decreases n,
{
    if n <= 0 || n > args.len() {
        Some(Seq::empty())
    } else {
        match (plain_texts(args, n - 1), plain_text(args[n - 1].node)) {
            (Some(a), Some(b)) => Some(a + b),
            _ => None,
        }
    }
}

fn push_quoted(out: &mut String, text: &str)
    ensures
        final(out)@ == old(out)@ + quoted(text@),
{
    let cs = crate::text::chars_of(text);
    let ghost start = out@;
    push_char(out, '"');
    let mut i: usize = 0;
    assert(out@ + quoted_from(cs@, 0) + "\""@ =~= start + quoted(text@)) by {
        reveal_strlit("\"");
    }
    while i < cs.len()
        invariant
            i <= cs.len(),
            cs@ == text@,
            out@ + quoted_from(cs@, i as int) + "\""@ == start + quoted(text@),
        decreases cs.len() - i,
    {
        let ghost before = out@;
        let c = cs[i];
        if c == '"' {
            push_char(out, '\\');
            push_char(out, '"');
        } else if c == '\n' {
            push_char(out, '\\');
            push_char(out, 'n');
        } else if c == '\t' {
            push_char(out, '\\');
            push_char(out, 't');
        } else {
            push_char(out, c);
        }
        assert(out@ + quoted_from(cs@, i + 1) =~= before + quoted_from(cs@, i as int));
        assert(out@ + quoted_from(cs@, i + 1) + "\""@ =~= before + quoted_from(cs@, i as int)
            + "\""@);
        i += 1;
    }
    push_char(out, '"');
    assert(out@ =~= start + quoted(text@)) by {
        reveal_strlit("\"");
        assert(quoted_from(cs@, cs@.len() as int) =~= Seq::<char>::empty());
    }
}

/// The text of a plain value, or `None` for a value that the host writes.
#[verifier::loop_isolation(false)]
pub fn show(v: &Expr) -> (r: Option<String>)
    ensures
        match r {
            Some(t) => plain_text(v@) == Some(t@),
            None => plain_text(v@) is None,
        },
    decreases v, 0nat,
{
    match v {
        Expr::Int(n) => Some(crate::text::int_to_text(*n)),
        Expr::String(s) => {
            let mut out = String::new();
            push_unescaped(&mut out, s.as_str());
            assert(out@ =~= unescape(s@));
            Some(out)
        },
        Expr::Bool(b) => if *b {
            Some(String::from_str("true"))
        } else {
            Some(String::from_str("false"))
        },
        Expr::Null => Some(String::from_str("null")),
        Expr::Array(items) => {
            let ghost views = nodes_view(items@);
            let mut inner = String::new();
            let mut i: usize = 0;
            assert(inner@ =~= Seq::<char>::empty());
            while i < items.len()
                invariant
                    i <= items.len(),
                    views == nodes_view(items@),
                    listed_texts(views, i as int) == Some(inner@),
                decreases items.len() - i,
            {
                let ghost before = inner@;
                assert(views[i as int].node == items@[i as int].node@);
                match show(&items[i].node) {
                    Some(t) => {
                        if i > 0 {
                            push_text(&mut inner, ", ");
                        }
                        push_text(&mut inner, t.as_str());
                        proof {
                            reveal_strlit("");
                            let sep = if i > 0 {
                                ", "@
                            } else {
                                ""@
                            };
                            assert(inner@ =~= before + sep + t@);
                        }
                    },
                    None => {
                        proof {
                            listed_texts_fail(views, i + 1, views.len() as int);
                        }
                        return None;
                    },
                }
                i += 1;
            }
            let mut out = String::from_str("[");
            push_text(&mut out, inner.as_str());
            push_text(&mut out, "]");
            Some(out)
        },
        Expr::Object { properties } => {
            if properties.len() == 0 {
                assert(crate::ast::bindings_view(properties@).len() == 0);
                return Some(String::from_str("{ }"));
            }
            let ghost views = crate::ast::bindings_view(properties@);
            let mut inner = String::new();
            let mut i: usize = 0;
            assert(inner@ =~= Seq::<char>::empty());
            while i < properties.len()
                invariant
                    i <= properties.len(),
                    views == crate::ast::bindings_view(properties@),
                    member_texts(views, i as int) == Some(inner@),
                decreases properties.len() - i,
            {
                let ghost before = inner@;
                assert(views[i as int] == properties@[i as int]@);
                let shown = match &properties[i].value {
                    Expr::String(s) => {
                        let mut q = String::new();
                        push_quoted(&mut q, s.as_str());
                        assert(q@ =~= quoted(s@));
                        Some(q)
                    },
                    other => show(other),
                };
                assert(match shown {
                    Some(t) => member_value(views[i as int].value) == Some(t@),
                    None => member_value(views[i as int].value) is None,
                });
                match shown {
                    Some(t) => {
                        if i > 0 {
                            push_text(&mut inner, ", ");
                        }
                        push_text(&mut inner, "\"");
                        push_text(&mut inner, properties[i].name.as_str());
                        push_text(&mut inner, "\": ");
                        push_text(&mut inner, t.as_str());
                        proof {
                            reveal_strlit("");
                            let sep = if i > 0 {
                                ", "@
                            } else {
                                ""@
                            };
                            assert(inner@ =~= before + sep + "\""@ + views[i as int].name + "\": "@
                                + t@);
                        }
                    },
                    None => {
                        proof {
                            member_texts_fail(views, i + 1, views.len() as int);
                        }
                        return None;
                    },
                }
                i += 1;
            }
            let mut out = String::from_str("{ ");
            push_text(&mut out, inner.as_str());
            push_text(&mut out, " }");
            Some(out)
        },
        _ => None,
    }
}

proof fn listed_texts_fail(items: Seq<SpannedView>, n: int, m: int)
    requires
        0 <= n <= m <= items.len(),
        listed_texts(items, n) is None,
    ensures
        listed_texts(items, m) is None,
    decreases m - n,
{
    if n < m {
        listed_texts_fail(items, n, m - 1);
    }
}

proof fn member_texts_fail(props: Seq<crate::ast::BindingView>, n: int, m: int)
    requires
        0 <= n <= m <= props.len(),
        member_texts(props, n) is None,
    ensures
        member_texts(props, m) is None,
    decreases m - n,
{
    if n < m {
        member_texts_fail(props, n, m - 1);
    }
}

/// The texts of `args`, one after the other, or `None` if one of them is
/// not plain.
pub fn plain_line(args: &Vec<SpannedExpr>) -> (r: Option<String>)
    ensures
        match r {
            Some(t) => plain_texts(nodes_view(args@), args@.len() as int) == Some(t@),
            None => plain_texts(nodes_view(args@), args@.len() as int) is None,
        },
{
    let mut out = String::new();
    let mut i: usize = 0;
    assert(out@ =~= Seq::<char>::empty());
    while i < args.len()
        invariant
            i <= args.len(),
            plain_texts(nodes_view(args@), i as int) == Some(out@),
        decreases args.len() - i,
    {
        assert(nodes_view(args@)[i as int].node == args@[i as int].node@);
        match show(&args[i].node) {
            Some(t) => {
                push_text(&mut out, t.as_str());
            },
            None => {
                proof {
                    plain_texts_fail(nodes_view(args@), i + 1, args@.len() as int);
                }
                return None;
            },
        }
        i += 1;
    }
    Some(out)
}

proof fn plain_texts_fail(args: Seq<SpannedView>, n: int, m: int)
    requires
        0 <= n <= m <= args.len(),
        plain_texts(args, n) is None,
    ensures
        plain_texts(args, m) is None,
    decreases m - n,
{
    if n < m {
        plain_texts_fail(args, n, m - 1);
    }
}

} // verus!
