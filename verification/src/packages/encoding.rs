//! The package `encoding`.

use crate::ast::{bindings_view, Binding, BindingView, Native};
use crate::builtins::array::one_name;
use crate::environment::Environment;
use crate::libraries::math::{make_symbol, symbol};
use vstd::prelude::*;

verus! {

/// The functions of the package, in order.
pub open spec fn symbols() -> Seq<BindingView> {
    seq![
        symbol("base64_encode"@, seq!["str"@], Native::EncodeBase64),
        symbol("base64_decode"@, seq!["str"@], Native::DecodeBase64),
        symbol("base16_encode"@, seq!["str"@], Native::EncodeBase16),
        symbol("base16_decode"@, seq!["str"@], Native::DecodeBase16),
    ]
}

/// The table of the package's functions.
pub fn get_object() -> (r: Environment)
    ensures
        r@ == symbols(),
        r@.len() == 4,
{
    let mut list: Vec<Binding> = Vec::new();
    list.push(make_symbol("base64_encode", one_name("str"), Native::EncodeBase64));
    list.push(make_symbol("base64_decode", one_name("str"), Native::DecodeBase64));
    list.push(make_symbol("base16_encode", one_name("str"), Native::EncodeBase16));
    list.push(make_symbol("base16_decode", one_name("str"), Native::DecodeBase16));
    assert(bindings_view(list@) =~= symbols());
    Environment { entries: list }
}

} // verus!
