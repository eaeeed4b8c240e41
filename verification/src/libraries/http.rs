//! The package `http`. The host sends the request; what goes to it and
//! what comes back is prepared here.

use crate::ast::{
    bindings_view, nodes_view, Binding, BindingView, Expr, ExprView, InternalFunctionResponse,
    Native, Span, SpannedExpr, SpannedView,
};
use crate::builtins::array::{done, first_span, gives, span_of_first, value};
use crate::libraries::crypto::{span_argument, span_at, text_argument, text_at};
use crate::text::joined;
use vstd::prelude::*;

verus! {

/// The methods of requests.
#[derive(Clone, Copy, Debug, PartialEq, Eq, Structural)]
pub enum Method {
    Get,
    Post,
    Put,
    Patch,
    Delete,
}

/// A request as the host sends it.
#[derive(Debug)]
pub struct HttpRequest {
    pub method: Method,
    pub url: String,
    pub body: Option<String>,
}

/// Mirror of `HttpRequest`.
pub struct HttpRequestView {
    pub method: Method,
    pub url: Seq<char>,
    pub body: Option<Seq<char>>,
}

impl View for HttpRequest {
    type V = HttpRequestView;

    open spec fn view(&self) -> HttpRequestView {
        HttpRequestView {
            method: self.method,
            url: self.url@,
            body: match self.body {
                Some(b) => Some(b@),
                None => None,
            },
        }
    }
}

/// The method of a function of the package, and whether it sends a body.
pub open spec fn method_of(func: Native) -> Option<(Method, bool)> {
    match func {
        Native::HttpGet => Some((Method::Get, false)),
        Native::HttpPost => Some((Method::Post, true)),
        Native::HttpPut => Some((Method::Put, true)),
        Native::HttpPatch => Some((Method::Patch, true)),
        Native::HttpDelete => Some((Method::Delete, false)),
        _ => None,
    }
}

/// The name of a method as the functions' messages write it.
pub open spec fn method_name(method: Method) -> Seq<char> {
    match method {
        Method::Get => "get"@,
        Method::Post => "post"@,
        Method::Put => "put"@,
        Method::Patch => "patch"@,
        Method::Delete => "delete"@,
    }
}

/// The request that a function of the package makes of its arguments: the
/// first is the address, the second, for the methods that send one, the
/// body; both must be texts.
pub open spec fn request_of(method: Method, with_body: bool, args: Seq<SpannedView>) -> Result<
    HttpRequestView,
    (Seq<char>, Span),
> {
    match text_at(args, 0) {
        None => Err(
            (
                method_name(method) + " expects a string as the first argument"@,
                first_span(args),
            ),
        ),
        Some(url) => if with_body {
            match text_at(args, 1) {
                None => Err(
                    (
                        method_name(method) + " expects a string as the second argument"@,
                        span_at(args, 1),
                    ),
                ),
                Some(body) => Ok(HttpRequestView { method, url, body: Some(body) }),
            }
        } else {
            Ok(HttpRequestView { method, url, body: None })
        },
    }
}

fn name_of(method: Method) -> (r: &'static str)
    ensures
        r@ == method_name(method),
{
    match method {
        Method::Get => "get",
        Method::Post => "post",
        Method::Put => "put",
        Method::Patch => "patch",
        Method::Delete => "delete",
    }
}

/// The request that a function of the package makes of its arguments.
pub fn request(method: Method, with_body: bool, args: &Vec<SpannedExpr>) -> (r: Result<
    HttpRequest,
    (String, Span),
>)
    ensures
        match r {
            Ok(q) => request_of(method, with_body, nodes_view(args@)) == Ok::<
                HttpRequestView,
                (Seq<char>, Span),
            >(q@),
            Err(e) => request_of(method, with_body, nodes_view(args@)) == Err::<
                HttpRequestView,
                (Seq<char>, Span),
            >((e.0@, e.1)),
        },
{
    match text_argument(args, 0) {
        None => Err(
            (joined(name_of(method), " expects a string as the first argument"), span_of_first(args)),
        ),
        Some(url) => if with_body {
            match text_argument(args, 1) {
                None => Err(
                    (
                        joined(name_of(method), " expects a string as the second argument"),
                        span_argument(args, 1),
                    ),
                ),
                Some(body) => Ok(HttpRequest { method, url, body: Some(body) }),
            }
        } else {
            Ok(HttpRequest { method, url, body: None })
        },
    }
}

/// `get`: the request that the host sends.
pub fn get(args: &Vec<SpannedExpr>) -> (r: Result<HttpRequest, (String, Span)>)
    ensures
        match r {
            Ok(q) => request_of(Method::Get, false, nodes_view(args@)) == Ok::<
                HttpRequestView,
                (Seq<char>, Span),
            >(q@),
            Err(e) => request_of(Method::Get, false, nodes_view(args@)) == Err::<
                HttpRequestView,
                (Seq<char>, Span),
            >((e.0@, e.1)),
        },
{
    request(Method::Get, false, args)
}

/// `post`: the request that the host sends.
pub fn post(args: &Vec<SpannedExpr>) -> (r: Result<HttpRequest, (String, Span)>)
    ensures
        match r {
            Ok(q) => request_of(Method::Post, true, nodes_view(args@)) == Ok::<
                HttpRequestView,
                (Seq<char>, Span),
            >(q@),
            Err(e) => request_of(Method::Post, true, nodes_view(args@)) == Err::<
                HttpRequestView,
                (Seq<char>, Span),
            >((e.0@, e.1)),
        },
{
    request(Method::Post, true, args)
}

/// `put`: the request that the host sends.
pub fn put(args: &Vec<SpannedExpr>) -> (r: Result<HttpRequest, (String, Span)>)
    ensures
        match r {
            Ok(q) => request_of(Method::Put, true, nodes_view(args@)) == Ok::<
                HttpRequestView,
                (Seq<char>, Span),
            >(q@),
            Err(e) => request_of(Method::Put, true, nodes_view(args@)) == Err::<
                HttpRequestView,
                (Seq<char>, Span),
            >((e.0@, e.1)),
        },
{
    request(Method::Put, true, args)
}

/// `patch`: the request that the host sends.
pub fn patch(args: &Vec<SpannedExpr>) -> (r: Result<HttpRequest, (String, Span)>)
    ensures
        match r {
            Ok(q) => request_of(Method::Patch, true, nodes_view(args@)) == Ok::<
                HttpRequestView,
                (Seq<char>, Span),
            >(q@),
            Err(e) => request_of(Method::Patch, true, nodes_view(args@)) == Err::<
                HttpRequestView,
                (Seq<char>, Span),
            >((e.0@, e.1)),
        },
{
    request(Method::Patch, true, args)
}

/// `delete`: the request that the host sends.
pub fn delete(args: &Vec<SpannedExpr>) -> (r: Result<HttpRequest, (String, Span)>)
    ensures
        match r {
            Ok(q) => request_of(Method::Delete, false, nodes_view(args@)) == Ok::<
                HttpRequestView,
                (Seq<char>, Span),
            >(q@),
            Err(e) => request_of(Method::Delete, false, nodes_view(args@)) == Err::<
                HttpRequestView,
                (Seq<char>, Span),
            >((e.0@, e.1)),
        },
{
    request(Method::Delete, false, args)
}

/// The object that stands for a response: its status, the status's text,
/// its headers, its body, and whether the status is one of success.
pub open spec fn response_of(
    status: u16,
    status_text: Seq<char>,
    headers: Seq<BindingView>,
    body: Seq<char>,
) -> ExprView {
    ExprView::Object {
        properties: seq![
            BindingView { name: "status"@, value: ExprView::Int(status as i64) },
            BindingView { name: "status_text"@, value: ExprView::String(status_text) },
            BindingView { name: "headers"@, value: ExprView::Object { properties: headers } },
            BindingView { name: "body"@, value: ExprView::String(body) },
            BindingView { name: "ok"@, value: ExprView::Bool(200 <= status < 300) },
        ],
    }
}

/// The object that stands for a response.
pub fn response(status: u16, status_text: &str, headers: Vec<Binding>, body: String) -> (r: Result<
    InternalFunctionResponse,
    (String, Span),
>)
    ensures
        gives(r, value(response_of(status, status_text@, bindings_view(headers@), body@))),
{
    let mut properties: Vec<Binding> = Vec::new();
    properties.push(Binding { name: String::from_str("status"), value: Expr::Int(status as i64) });
    properties.push(
        Binding {
            name: String::from_str("status_text"),
            value: Expr::String(String::from_str(status_text)),
        },
    );
    properties.push(
        Binding { name: String::from_str("headers"), value: Expr::Object { properties: headers } },
    );
    properties.push(Binding { name: String::from_str("body"), value: Expr::String(body) });
    properties.push(
        Binding { name: String::from_str("ok"), value: Expr::Bool(200 <= status && status < 300) },
    );
    assert(bindings_view(properties@) =~= response_of(
        status,
        status_text@,
        bindings_view(headers@),
        body@,
    )->Object_properties);
    done(Expr::Object { properties })
}

/// The package `http`.
pub fn get_object() -> (r: Expr)
    ensures
        r@ == (ExprView::Module { symbols: crate::libraries::http_symbols() }),
{
    crate::libraries::http_object()
}

} // verus!
