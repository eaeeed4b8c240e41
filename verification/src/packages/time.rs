//! The package `time`; `now` is the outdated name of `now_unix`.

use crate::ast::{bindings_view, Binding, BindingView, Native};
use crate::builtins::array::one_name;
use crate::environment::Environment;
use crate::libraries::math::{make_symbol, symbol};
use crate::libraries::no_names;
use vstd::prelude::*;

verus! {

/// The functions of the package, in order.
pub open spec fn symbols() -> Seq<BindingView> {
    seq![
        symbol("now"@, seq![], Native::NowUnix),
        symbol("now_unix"@, seq![], Native::NowUnix),
        symbol("now_utc"@, seq![], Native::NowUtc),
        symbol("now_local"@, seq![], Native::NowLocal),
        symbol("to_iso_8601"@, seq!["unix"@], Native::ToIso8601),
        symbol("to_rfc_2822"@, seq!["unix"@], Native::ToRfc2822),
        symbol("to_local_date_time"@, seq!["unix"@], Native::ToLocalDateTime),
        symbol("to_utc_date_time"@, seq!["unix"@], Native::ToUtcDateTime),
    ]
}

/// The table of the package's functions.
pub fn get_object() -> (r: Environment)
    ensures
        r@ == symbols(),
        r@.len() == 8,
{
    let mut list: Vec<Binding> = Vec::new();
    list.push(make_symbol("now", no_names(), Native::NowUnix));
    list.push(make_symbol("now_unix", no_names(), Native::NowUnix));
    list.push(make_symbol("now_utc", no_names(), Native::NowUtc));
    list.push(make_symbol("now_local", no_names(), Native::NowLocal));
    list.push(make_symbol("to_iso_8601", one_name("unix"), Native::ToIso8601));
    list.push(make_symbol("to_rfc_2822", one_name("unix"), Native::ToRfc2822));
    list.push(make_symbol("to_local_date_time", one_name("unix"), Native::ToLocalDateTime));
    list.push(make_symbol("to_utc_date_time", one_name("unix"), Native::ToUtcDateTime));
    assert(bindings_view(list@) =~= symbols());
    Environment { entries: list }
}

} // verus!
