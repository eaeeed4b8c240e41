//! The packages that come with the interpreter, and the registry that
//! `import` consults for them.

pub mod crypto;
pub mod encoding;
pub mod ffi;
pub mod http;
pub mod math;
pub mod os;
pub mod time;

use crate::ast::{bindings_view, Binding, BindingView, Expr, ExprView, Native};
use crate::builtins::array::{one_name, two_names};
use crate::libraries::math::{make_module, make_symbol, symbol};
use crate::text::same_text;
use vstd::prelude::*;

verus! {

/// A list of no names.
pub fn no_names() -> (r: Vec<String>)
    ensures
        crate::ast::names_view(r@) == Seq::<Seq<char>>::empty(),
{
    let v: Vec<String> = Vec::new();
    assert(crate::ast::names_view(v@) =~= Seq::<Seq<char>>::empty());
    v
}

/// The symbols of the package `time`.
pub open spec fn time_symbols() -> Seq<BindingView> {
    seq![
        symbol("now_unix"@, seq![], Native::NowUnix),
        symbol("now_utc"@, seq![], Native::NowUtc),
        symbol("now_local"@, seq![], Native::NowLocal),
        symbol("to_iso_8601"@, seq!["unix_timestamp"@], Native::ToIso8601),
        symbol("to_rfc_2822"@, seq!["unix_timestamp"@], Native::ToRfc2822),
        symbol("to_local_date_time"@, seq!["unix_timestamp"@], Native::ToLocalDateTime),
        symbol("to_utc_date_time"@, seq!["unix_timestamp"@], Native::ToUtcDateTime),
    ]
}

/// The symbols of the package `encoding`.
pub open spec fn encoding_symbols() -> Seq<BindingView> {
    seq![
        symbol("encode_base64"@, seq!["str"@], Native::EncodeBase64),
        symbol("decode_base64"@, seq!["str"@], Native::DecodeBase64),
        symbol("encode_base16"@, seq!["str"@], Native::EncodeBase16),
        symbol("decode_base16"@, seq!["str"@], Native::DecodeBase16),
    ]
}

/// The symbols of the package `crypto`; the outdated functions are in the
/// module `legacy`.
pub open spec fn crypto_symbols() -> Seq<BindingView> {
    seq![
        symbol("sha256"@, seq!["input"@], Native::Sha256),
        symbol("sha512"@, seq!["input"@], Native::Sha512),
        symbol("blake3"@, seq!["input"@], Native::Blake3),
        symbol("bcrypt_hash"@, seq!["input"@], Native::BcryptHash),
        symbol("bcrypt_verify"@, seq!["input"@, "hash"@], Native::BcryptVerify),
        symbol("argon2_hash"@, seq!["input"@], Native::Argon2Hash),
        symbol("argon2_verify"@, seq!["input"@, "hash"@], Native::Argon2Verify),
        symbol("scrypt_hash"@, seq!["input"@], Native::ScryptHash),
        symbol("scrypt_verify"@, seq!["input"@, "hash"@], Native::ScryptVerify),
        BindingView {
            name: "legacy"@,
            value: ExprView::Module { symbols: seq![symbol("md5"@, seq!["input"@], Native::Md5)] },
        },
    ]
}

/// The symbols of the package `os` on the platform called `platform`.
pub open spec fn os_symbols(platform: Seq<char>) -> Seq<BindingView> {
    seq![
        symbol("exec"@, seq!["cmd"@], Native::OsExec),
        BindingView { name: "name"@, value: ExprView::String(platform) },
    ]
}

/// The symbols of the package `http`.
pub open spec fn http_symbols() -> Seq<BindingView> {
    seq![
        symbol("get"@, seq!["url"@], Native::HttpGet),
        symbol("post"@, seq!["url"@, "body"@], Native::HttpPost),
        symbol("put"@, seq!["url"@, "body"@], Native::HttpPut),
        symbol("patch"@, seq!["url"@, "body"@], Native::HttpPatch),
        symbol("delete"@, seq!["url"@], Native::HttpDelete),
    ]
}

/// The symbols of the package `ffi`.
pub open spec fn ffi_symbols() -> Seq<BindingView> {
    seq![symbol("load"@, seq!["path"@], Native::FfiLoad)]
}

/// The symbols of the package `json`.
pub open spec fn json_symbols() -> Seq<BindingView> {
    seq![
        symbol("parse"@, seq!["str"@], Native::JsonParse),
        symbol("stringify"@, seq!["value"@], Native::JsonStringify),
    ]
}

/// The symbols of the package `uuid`.
pub open spec fn uuid_symbols() -> Seq<BindingView> {
    seq![symbol("v4"@, seq![], Native::UuidV4)]
}

/// The package `time`.
pub fn time_object() -> (r: Expr)
    ensures
        r@ == (ExprView::Module { symbols: time_symbols() }),
{
    let mut list: Vec<Binding> = Vec::new();
    list.push(make_symbol("now_unix", no_names(), Native::NowUnix));
    list.push(make_symbol("now_utc", no_names(), Native::NowUtc));
    list.push(make_symbol("now_local", no_names(), Native::NowLocal));
    list.push(make_symbol("to_iso_8601", one_name("unix_timestamp"), Native::ToIso8601));
    list.push(make_symbol("to_rfc_2822", one_name("unix_timestamp"), Native::ToRfc2822));
    list.push(make_symbol("to_local_date_time", one_name("unix_timestamp"), Native::ToLocalDateTime));
    list.push(make_symbol("to_utc_date_time", one_name("unix_timestamp"), Native::ToUtcDateTime));
    assert(bindings_view(list@) =~= time_symbols());
    make_module(list)
}

/// The package `encoding`.
pub fn encoding_object() -> (r: Expr)
    ensures
        r@ == (ExprView::Module { symbols: encoding_symbols() }),
{
    let mut list: Vec<Binding> = Vec::new();
    list.push(make_symbol("encode_base64", one_name("str"), Native::EncodeBase64));
    list.push(make_symbol("decode_base64", one_name("str"), Native::DecodeBase64));
    list.push(make_symbol("encode_base16", one_name("str"), Native::EncodeBase16));
    list.push(make_symbol("decode_base16", one_name("str"), Native::DecodeBase16));
    assert(bindings_view(list@) =~= encoding_symbols());
    make_module(list)
}

/// The package `crypto`.
pub fn crypto_object() -> (r: Expr)
    ensures
        r@ == (ExprView::Module { symbols: crypto_symbols() }),
{
    let mut legacy: Vec<Binding> = Vec::new();
    legacy.push(make_symbol("md5", one_name("input"), Native::Md5));
    assert(bindings_view(legacy@) =~= seq![symbol("md5"@, seq!["input"@], Native::Md5)]);
    let mut list: Vec<Binding> = Vec::new();
    list.push(make_symbol("sha256", one_name("input"), Native::Sha256));
    list.push(make_symbol("sha512", one_name("input"), Native::Sha512));
    list.push(make_symbol("blake3", one_name("input"), Native::Blake3));
    list.push(make_symbol("bcrypt_hash", one_name("input"), Native::BcryptHash));
    list.push(make_symbol("bcrypt_verify", two_names("input", "hash"), Native::BcryptVerify));
    list.push(make_symbol("argon2_hash", one_name("input"), Native::Argon2Hash));
    list.push(make_symbol("argon2_verify", two_names("input", "hash"), Native::Argon2Verify));
    list.push(make_symbol("scrypt_hash", one_name("input"), Native::ScryptHash));
    list.push(make_symbol("scrypt_verify", two_names("input", "hash"), Native::ScryptVerify));
    list.push(Binding { name: String::from_str("legacy"), value: make_module(legacy) });
    assert(bindings_view(list@) =~= crypto_symbols());
    make_module(list)
}

/// The package `os` on the platform called `platform`.
pub fn os_object(platform: &str) -> (r: Expr)
    ensures
        r@ == (ExprView::Module { symbols: os_symbols(platform@) }),
{
    let mut list: Vec<Binding> = Vec::new();
    list.push(make_symbol("exec", one_name("cmd"), Native::OsExec));
    list.push(
        Binding { name: String::from_str("name"), value: Expr::String(String::from_str(platform)) },
    );
    assert(bindings_view(list@) =~= os_symbols(platform@));
    make_module(list)
}

/// The package `http`.
pub fn http_object() -> (r: Expr)
    ensures
        r@ == (ExprView::Module { symbols: http_symbols() }),
{
    let mut list: Vec<Binding> = Vec::new();
    list.push(make_symbol("get", one_name("url"), Native::HttpGet));
    list.push(make_symbol("post", two_names("url", "body"), Native::HttpPost));
    list.push(make_symbol("put", two_names("url", "body"), Native::HttpPut));
    list.push(make_symbol("patch", two_names("url", "body"), Native::HttpPatch));
    list.push(make_symbol("delete", one_name("url"), Native::HttpDelete));
    assert(bindings_view(list@) =~= http_symbols());
    make_module(list)
}

/// The package `ffi`.
pub fn ffi_object() -> (r: Expr)
    ensures
        r@ == (ExprView::Module { symbols: ffi_symbols() }),
{
    let mut list: Vec<Binding> = Vec::new();
    list.push(make_symbol("load", one_name("path"), Native::FfiLoad));
    assert(bindings_view(list@) =~= ffi_symbols());
    make_module(list)
}

/// The package `json`.
pub fn json_object() -> (r: Expr)
    ensures
        r@ == (ExprView::Module { symbols: json_symbols() }),
{
    let mut list: Vec<Binding> = Vec::new();
    list.push(make_symbol("parse", one_name("str"), Native::JsonParse));
    list.push(make_symbol("stringify", one_name("value"), Native::JsonStringify));
    assert(bindings_view(list@) =~= json_symbols());
    make_module(list)
}

/// The package `uuid`.
pub fn uuid_object() -> (r: Expr)
    ensures
        r@ == (ExprView::Module { symbols: uuid_symbols() }),
{
    let mut list: Vec<Binding> = Vec::new();
    list.push(make_symbol("v4", no_names(), Native::UuidV4));
    assert(bindings_view(list@) =~= uuid_symbols());
    make_module(list)
}

/// The symbols of the package called `name`, if the registry has it. The
/// packages that reach outside the program (`os`, `http`, `ffi`) are
/// withheld in a sandbox.
pub open spec fn package(name: Seq<char>, sandbox: bool, platform: Seq<char>) -> Option<
    Seq<BindingView>,
> {
    if name == "time"@ {
        Some(time_symbols())
    } else if name == "encoding"@ {
        Some(encoding_symbols())
    } else if name == "uuid"@ {
        Some(uuid_symbols())
    } else if name == "math"@ {
        Some(math::symbols())
    } else if name == "json"@ {
        Some(json_symbols())
    } else if name == "crypto"@ {
        Some(crypto_symbols())
    } else if name == "os"@ {
        if sandbox {
            None
        } else {
            Some(os_symbols(platform))
        }
    } else if name == "http"@ {
        if sandbox {
            None
        } else {
            Some(http_symbols())
        }
    } else if name == "ffi"@ {
        if sandbox {
            None
        } else {
            Some(ffi_symbols())
        }
    } else {
        None
    }
}

/// The package called `name`, if the registry has it.
pub fn get_package(name: &str, sandbox: bool, platform: &str) -> (r: Option<Expr>)
    ensures
        match r {
            Some(m) => package(name@, sandbox, platform@) == Some(m@->Module_symbols) && m@ is Module,
            None => package(name@, sandbox, platform@) is None,
        },
{
    if same_text(name, "time") {
        Some(time_object())
    } else if same_text(name, "encoding") {
        Some(encoding_object())
    } else if same_text(name, "uuid") {
        Some(uuid_object())
    } else if same_text(name, "math") {
        Some(math::get_object())
    } else if same_text(name, "json") {
        Some(json_object())
    } else if same_text(name, "crypto") {
        Some(crypto_object())
    } else if same_text(name, "os") {
        if sandbox {
            None
        } else {
            Some(os_object(platform))
        }
    } else if same_text(name, "http") {
        if sandbox {
            None
        } else {
            Some(http_object())
        }
    } else if same_text(name, "ffi") {
        if sandbox {
            None
        } else {
            Some(ffi_object())
        }
    } else {
        None
    }
}

} // verus!
