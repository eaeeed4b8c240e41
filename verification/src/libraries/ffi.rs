//! The package `ffi`: functions of native libraries. The host loads the
//! library and makes the call; the values that cross are prepared here.

use crate::ast::{nodes_view, Expr, ExprView, Float, LibraryHandle, Span, SpannedExpr, SpannedView};
use crate::builtins::array::first_span;
use crate::evaluator::marshal;
use crate::libraries::crypto::{text_argument, text_at};
use crate::semantics::marshalled;
use crate::session::{Request, RequestView};
use crate::text::joined;
use vstd::prelude::*;

verus! {

/// The tags of the values that cross to native code and back.
#[derive(Clone, Copy, Debug, PartialEq, Eq, Structural)]
pub enum FFIType {
    Null,
    String,
    Integer,
    Float,
    Boolean,
}

/// The value that native code handed back with the tag `ty`: the payload
/// that the tag selects. An integer is widened from 32 bits.
pub open spec fn returned(
    ty: FFIType,
    integer: i32,
    float: Float,
    boolean: bool,
    string: Seq<char>,
) -> ExprView {
    match ty {
        FFIType::Null => ExprView::Null,
        FFIType::String => ExprView::String(string),
        FFIType::Integer => ExprView::Int(integer as i64),
        FFIType::Float => ExprView::Float(float),
        FFIType::Boolean => ExprView::Bool(boolean),
    }
}

/// The value that native code handed back with the tag `ty`.
pub fn value_of(ty: FFIType, integer: i32, float: Float, boolean: bool, string: String) -> (r: Expr)
    ensures
        r@ == returned(ty, integer, float, boolean, string@),
{
    match ty {
        FFIType::Null => Expr::Null,
        FFIType::String => Expr::String(string),
        FFIType::Integer => Expr::Int(integer as i64),
        FFIType::Float => Expr::Float(float),
        FFIType::Boolean => Expr::Bool(boolean),
    }
}

/// The request for the call of the symbol `func_name` of a library on
/// `args`, or the failure that an argument is of a kind that cannot cross to
/// native code.
pub open spec fn call_of(library: LibraryHandle, func_name: Seq<char>, args: Seq<SpannedView>) -> Result<
    RequestView,
    Seq<char>,
> {
    match marshalled(args, args.len() as int) {
        Some(values) => Ok(RequestView::Ffi { library, symbol: func_name, args: values }),
        None => Err("Unsupported argument type for FFI call"@),
    }
}

/// The request for the call of the symbol `func_name` of a library on
/// `args`. The host makes the call, frees the strings that it handed over,
/// and makes the result with `value_of`.
pub fn execute_ffi_call(library: LibraryHandle, func_name: &str, args: &Vec<SpannedExpr>) -> (r:
    Result<Request, String>)
    ensures
        match r {
            Ok(q) => call_of(library, func_name@, nodes_view(args@)) == Ok::<RequestView, Seq<char>>(
                q@,
            ),
            Err(e) => call_of(library, func_name@, nodes_view(args@)) == Err::<
                RequestView,
                Seq<char>,
            >(e@),
        },
{
    match marshal(args) {
        Some(values) => Ok(
            Request::Ffi { library, symbol: String::from_str(func_name), args: values },
        ),
        None => Err(String::from_str("Unsupported argument type for FFI call")),
    }
}

/// The path of the library that `load` loads: the text argument after the
/// directory of the invoked script. Otherwise the failure that `load`
/// reports.
pub open spec fn load_path(args: Seq<SpannedView>, directory: Seq<char>) -> Result<
    Seq<char>,
    (Seq<char>, Span),
> {
    match text_at(args, 0) {
        Some(path) => Ok(directory + path),
        None => Err(("load expects a string argument"@, first_span(args))),
    }
}

/// `load`: the path of the library that the host loads.
pub fn load(args: &Vec<SpannedExpr>, directory: &str) -> (r: Result<String, (String, Span)>)
    ensures
        match r {
            Ok(path) => load_path(nodes_view(args@), directory@) == Ok::<
                Seq<char>,
                (Seq<char>, Span),
            >(path@),
            Err(e) => load_path(nodes_view(args@), directory@) == Err::<
                Seq<char>,
                (Seq<char>, Span),
            >((e.0@, e.1)),
        },
{
    match text_argument(args, 0) {
        Some(path) => Ok(joined(directory, path.as_str())),
        None => Err(
            (
                String::from_str("load expects a string argument"),
                crate::builtins::array::span_of_first(args),
            ),
        ),
    }
}

/// The package `ffi`.
pub fn get_object() -> (r: Expr)
    ensures
        r@ == (ExprView::Module { symbols: crate::libraries::ffi_symbols() }),
{
    crate::libraries::ffi_object()
}

} // verus!
