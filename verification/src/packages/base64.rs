//! The package `base64`.

use crate::ast::{bindings_view, Binding, BindingView, Native};
use crate::builtins::array::one_name;
use crate::environment::Environment;
use crate::libraries::math::{make_symbol, symbol};
use vstd::prelude::*;

verus! {

/// The functions of the package, in order.
pub open spec fn symbols() -> Seq<BindingView> {
    seq![
        symbol("encode"@, seq!["str"@], Native::EncodeBase64),
        symbol("decode"@, seq!["str"@], Native::DecodeBase64),
    ]
}

/// The table of the package's functions.
pub fn get_object() -> (r: Environment)
    ensures
        r@ == symbols(),
        r@.len() == 2,
{
    let mut list: Vec<Binding> = Vec::new();
    list.push(make_symbol("encode", one_name("str"), Native::EncodeBase64));
    list.push(make_symbol("decode", one_name("str"), Native::DecodeBase64));
    assert(bindings_view(list@) =~= symbols());
    Environment { entries: list }
}

} // verus!
