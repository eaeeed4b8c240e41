//! The package `crypto`.

use crate::ast::{bindings_view, Binding, BindingView, Native};
use crate::builtins::array::{one_name, two_names};
use crate::environment::Environment;
use crate::libraries::math::{make_symbol, symbol};
use vstd::prelude::*;

verus! {

/// The functions of the package, in order.
pub open spec fn symbols() -> Seq<BindingView> {
    seq![
        symbol("sha256"@, seq!["str"@], Native::Sha256),
        symbol("sha512"@, seq!["str"@], Native::Sha512),
        symbol("blake3"@, seq!["str"@], Native::Blake3),
        symbol("bcrypt_hash"@, seq!["str"@], Native::BcryptHash),
        symbol("bcrypt_verify"@, seq!["password"@, "hash"@], Native::BcryptVerify),
        symbol("argon2_hash"@, seq!["str"@], Native::Argon2Hash),
        symbol("argon2_verify"@, seq!["password"@, "hash"@], Native::Argon2Verify),
        symbol("scrypt_hash"@, seq!["str"@], Native::ScryptHash),
        symbol("scrypt_verify"@, seq!["password"@, "hash"@], Native::ScryptVerify),
    ]
}

/// The table of the package's functions.
pub fn get_object() -> (r: Environment)
    ensures
        r@ == symbols(),
        r@.len() == 9,
{
    let mut list: Vec<Binding> = Vec::new();
    list.push(make_symbol("sha256", one_name("str"), Native::Sha256));
    list.push(make_symbol("sha512", one_name("str"), Native::Sha512));
    list.push(make_symbol("blake3", one_name("str"), Native::Blake3));
    list.push(make_symbol("bcrypt_hash", one_name("str"), Native::BcryptHash));
    list.push(make_symbol("bcrypt_verify", two_names("password", "hash"), Native::BcryptVerify));
    list.push(make_symbol("argon2_hash", one_name("str"), Native::Argon2Hash));
    list.push(make_symbol("argon2_verify", two_names("password", "hash"), Native::Argon2Verify));
    list.push(make_symbol("scrypt_hash", one_name("str"), Native::ScryptHash));
    list.push(make_symbol("scrypt_verify", two_names("password", "hash"), Native::ScryptVerify));
    assert(bindings_view(list@) =~= symbols());
    Environment { entries: list }
}

} // verus!
