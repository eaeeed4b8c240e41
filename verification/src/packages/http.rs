//! The package `http`.

use crate::ast::{bindings_view, Binding, BindingView, Native};
use crate::builtins::array::one_name;
use crate::environment::Environment;
use crate::libraries::math::{make_symbol, symbol};
use vstd::prelude::*;

verus! {

/// The functions of the package, in order.
pub open spec fn symbols() -> Seq<BindingView> {
    seq![
        symbol("get"@, seq!["__args__"@], Native::HttpGet),
        symbol("post"@, seq!["__args__"@], Native::HttpPost),
    ]
}

/// The table of the package's functions.
pub fn get_object() -> (r: Environment)
    ensures
        r@ == symbols(),
        r@.len() == 2,
{
    let mut list: Vec<Binding> = Vec::new();
    list.push(make_symbol("get", one_name("__args__"), Native::HttpGet));
    list.push(make_symbol("post", one_name("__args__"), Native::HttpPost));
    assert(bindings_view(list@) =~= symbols());
    Environment { entries: list }
}

} // verus!
