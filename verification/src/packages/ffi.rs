//! The package `ffi`.

use crate::ast::{bindings_view, Binding, BindingView, Native};
use crate::builtins::array::one_name;
use crate::environment::Environment;
use crate::libraries::math::{make_symbol, symbol};
use vstd::prelude::*;

verus! {

/// The functions of the package, in order.
pub open spec fn symbols() -> Seq<BindingView> {
    seq![
        symbol("load"@, seq!["__args__"@], Native::FfiLoad),
    ]
}

/// The table of the package's functions.
pub fn get_object() -> (r: Environment)
    ensures
        r@ == symbols(),
        r@.len() == 1,
{
    let mut list: Vec<Binding> = Vec::new();
    list.push(make_symbol("load", one_name("__args__"), Native::FfiLoad));
    assert(bindings_view(list@) =~= symbols());
    Environment { entries: list }
}

} // verus!
