use modu::ast::{Binding, Expr, Float, InternalFunctionResponse, Native, Span, SpannedExpr};
use modu::libraries::{crypto, encoding, ffi, http, math, os, time};
use modu::libraries::get_package;
use modu::natives::{call_native, serve};

fn arg(node: Expr, start: usize, end: usize) -> SpannedExpr {
    SpannedExpr::new(node, Span::new(start, end))
}

fn text(s: &str) -> Vec<SpannedExpr> {
    vec![arg(Expr::String(s.to_string()), 3, 9)]
}

fn string_of(r: Result<InternalFunctionResponse, (String, Span)>) -> String {
    match r {
        Ok(InternalFunctionResponse { return_value: Expr::String(s), replace_self: None }) => s,
        other => panic!("{:?}", other),
    }
}

fn error_of(r: Result<InternalFunctionResponse, (String, Span)>) -> (String, Span) {
    match r {
        Err(e) => e,
        other => panic!("{:?}", other),
    }
}

fn symbol_names(module: &Expr) -> Vec<String> {
    match module {
        Expr::Module { symbols } => symbols.iter().map(|b| b.name.clone()).collect(),
        other => panic!("{:?}", other),
    }
}

// --- crypto -----------------------------------------------------------------

#[test]
fn sha256_of_abc() {
    assert_eq!(
        string_of(crypto::sha256(text("abc"))),
        "ba7816bf8f01cfea414140de5dae2223b00361a396177a9cb410ff61f20015ad"
    );
}

#[test]
fn sha512_of_abc() {
    assert_eq!(
        string_of(crypto::sha512(text("abc"))),
        "ddaf35a193617abacc417349ae20413112e6fa4e89a97ea20a9eeee64b55d39a2192992a274fc1a836ba3c23a3feebbd454d4423643ce80e2a9ac94fa54ca49f"
    );
}

#[test]
fn blake3_of_abc() {
    assert_eq!(
        string_of(crypto::blake3(text("abc"))),
        "6437b3ac38465133ffb63b75273a8db548c558465d79db03fd359c6cd5bd9d85"
    );
}

#[test]
fn md5_of_abc() {
    assert_eq!(string_of(crypto::md5(text("abc"))), "900150983cd24fb0d6963f7d28e17f72");
}

#[test]
fn digests_expect_a_string() {
    let bad = || vec![arg(Expr::Int(1), 4, 5)];
    assert_eq!(error_of(crypto::sha256(bad())), ("sha256 expects a string argument".to_string(), Span::new(4, 5)));
    assert_eq!(error_of(crypto::sha512(bad())), ("sha512 expects a string argument".to_string(), Span::new(4, 5)));
    assert_eq!(error_of(crypto::blake3(bad())), ("blake3 expects a string argument".to_string(), Span::new(4, 5)));
    assert_eq!(error_of(crypto::md5(bad())), ("md5 expects a string argument".to_string(), Span::new(4, 5)));
    assert_eq!(error_of(crypto::sha256(vec![])), ("sha256 expects a string argument".to_string(), Span::new(0, 0)));
}

#[test]
fn bcrypt_hash_and_verify() {
    let hash = string_of(crypto::bcrypt_hash(text("secret")));
    assert!(hash.starts_with("$2"));
    assert_ne!(hash, "secret");
    let check = |password: &str| {
        crypto::bcrypt_verify(vec![
            arg(Expr::String(password.to_string()), 0, 1),
            arg(Expr::String(hash.clone()), 2, 3),
        ])
    };
    assert!(matches!(check("secret"), Ok(InternalFunctionResponse { return_value: Expr::Bool(true), .. })));
    assert!(matches!(check("other"), Ok(InternalFunctionResponse { return_value: Expr::Bool(false), .. })));
    let (message, span) = error_of(crypto::bcrypt_verify(vec![
        arg(Expr::String("secret".to_string()), 0, 1),
        arg(Expr::String("no hash".to_string()), 2, 3),
    ]));
    assert!(message.starts_with("bcrypt_verify failed: "));
    assert_eq!(span, Span::new(0, 1));
}

#[test]
fn argon2_hash_and_verify() {
    let hash = string_of(crypto::argon2_hash(text("secret")));
    assert!(hash.starts_with("$argon2"));
    let check = |password: &str| {
        crypto::argon2_verify(vec![
            arg(Expr::String(password.to_string()), 0, 1),
            arg(Expr::String(hash.clone()), 2, 3),
        ])
    };
    assert!(matches!(check("secret"), Ok(InternalFunctionResponse { return_value: Expr::Bool(true), .. })));
    assert!(matches!(check("other"), Ok(InternalFunctionResponse { return_value: Expr::Bool(false), .. })));
    let (message, span) = error_of(crypto::argon2_verify(vec![
        arg(Expr::String("secret".to_string()), 0, 1),
        arg(Expr::String("no hash".to_string()), 2, 3),
    ]));
    assert!(message.starts_with("argon2_verify failed to parse hash: "));
    assert_eq!(span, Span::new(2, 3));
}

#[test]
fn argon2_hash_with_a_given_salt_is_fixed() {
    let a = string_of(crypto::argon2_hash_with(text("secret"), "c29tZXNhbHR2YWx1ZQ"));
    let b = string_of(crypto::argon2_hash_with(text("secret"), "c29tZXNhbHR2YWx1ZQ"));
    assert_eq!(a, b);
    assert!(a.contains("c29tZXNhbHR2YWx1ZQ"));
    let (message, _) = error_of(crypto::argon2_hash_with(text("secret"), "!"));
    assert!(message.starts_with("argon2_hash failed: "));
}

#[test]
fn scrypt_hash_is_written() {
    let hash = string_of(crypto::scrypt_hash_with(text("secret"), "c29tZXNhbHR2YWx1ZQ"));
    assert!(hash.starts_with("$scrypt$"));
    assert!(hash.contains("c29tZXNhbHR2YWx1ZQ"));
}

#[test]
fn scrypt_verify_refuses_what_is_no_hash() {
    let (message, span) = error_of(crypto::scrypt_verify(vec![
        arg(Expr::String("secret".to_string()), 0, 1),
        arg(Expr::String("no hash".to_string()), 2, 3),
    ]));
    assert!(message.starts_with("scrypt_verify failed to parse hash: "));
    assert_eq!(span, Span::new(2, 3));
    let (message, _) = error_of(crypto::scrypt_hash_with(text("secret"), "!"));
    assert!(message.starts_with("scrypt_hash failed: "));
}

#[test]
fn verification_expects_two_strings() {
    let one = vec![arg(Expr::String("a".to_string()), 0, 1)];
    assert_eq!(
        error_of(crypto::bcrypt_verify(one)),
        ("bcrypt_verify expects the second argument to be a string".to_string(), Span::new(0, 1))
    );
    let two = vec![arg(Expr::Int(1), 0, 1), arg(Expr::String("a".to_string()), 2, 3)];
    assert_eq!(
        error_of(crypto::argon2_verify(two)),
        ("argon2_verify expects the first argument to be a string".to_string(), Span::new(0, 1))
    );
    let three = vec![arg(Expr::String("a".to_string()), 0, 1), arg(Expr::Null, 2, 3)];
    assert_eq!(
        error_of(crypto::scrypt_verify(three)),
        ("scrypt_verify expects the second argument to be a string".to_string(), Span::new(2, 3))
    );
}

// --- encoding ---------------------------------------------------------------

#[test]
fn base64_of_hello() {
    assert_eq!(string_of(encoding::encode_base64(text("hello"))), "aGVsbG8=");
    assert_eq!(string_of(encoding::decode_base64(text("aGVsbG8="))), "hello");
    assert_eq!(string_of(encoding::encode_base64(text(""))), "");
}

#[test]
fn base16_of_hello() {
    assert_eq!(string_of(encoding::encode_base16(text("hello"))), "68656c6c6f");
    assert_eq!(string_of(encoding::decode_base16(text("68656c6c6f"))), "hello");
    assert_eq!(string_of(encoding::decode_base16(text("68656C6C6F"))), "hello");
}

#[test]
fn decoding_fails_on_bad_input() {
    let (message, span) = error_of(encoding::decode_base64(text("***")));
    assert!(message.starts_with("Failed to decode base64 string: "));
    assert_eq!(span, Span::new(3, 9));
    let (message, _) = error_of(encoding::decode_base16(text("zz")));
    assert!(message.starts_with("Failed to decode base16 string: "));
    let (message, _) = error_of(encoding::decode_base16(text("ff")));
    assert!(message.starts_with("Decoded base16 is not valid UTF-8: "));
    let (message, _) = error_of(encoding::decode_base64(text("/w==")));
    assert!(message.starts_with("Decoded base64 is not valid UTF-8: "));
    assert_eq!(
        error_of(encoding::encode_base64(vec![arg(Expr::Null, 1, 2)])).0,
        "encode_base64 expects a string argument"
    );
    assert_eq!(
        error_of(encoding::decode_base16(vec![arg(Expr::Null, 1, 2)])).0,
        "decode_base16 expects a string argument"
    );
}

// --- time -------------------------------------------------------------------

#[test]
fn utc_date_time_of_the_epoch() {
    let r = time::to_utc_date_time(vec![arg(Expr::Int(0), 0, 1)]);
    assert_eq!(string_of(r), "Thu Jan  1 00:00:00 1970");
    let r = time::to_utc_date_time(vec![arg(Expr::Int(86_400 + 3_661), 0, 1)]);
    assert_eq!(string_of(r), "Fri Jan  2 01:01:01 1970");
}

#[test]
fn timestamps_have_a_range() {
    let r = time::to_utc_date_time(vec![arg(Expr::Int(-1), 5, 7)]);
    assert_eq!(error_of(r), ("timestamp out of range".to_string(), Span::new(5, 7)));
    let r = time::to_utc_date_time(vec![arg(Expr::Int(i64::MAX), 5, 7)]);
    assert_eq!(error_of(r), ("timestamp out of range".to_string(), Span::new(5, 7)));
    let r = time::to_utc_date_time(vec![arg(Expr::Int(253_402_300_800), 5, 7)]);
    assert!(string_of(r).ends_with("10000"));
    let r = time::to_rfc_2822(vec![arg(Expr::Int(253_370_764_800), 5, 7)]);
    assert_eq!(error_of(r), ("timestamp out of range".to_string(), Span::new(5, 7)));
    let r = time::to_iso_8601(vec![arg(Expr::String("1".to_string()), 5, 7)]);
    assert_eq!(error_of(r), ("to_iso_8601 expects an integer unix timestamp".to_string(), Span::new(5, 7)));
    let r = time::to_local_date_time(vec![]);
    assert_eq!(
        error_of(r),
        ("to_local_date_time expects an integer unix timestamp".to_string(), Span::new(0, 0))
    );
}

#[test]
fn local_times_are_written() {
    let r = string_of(time::to_rfc_2822(vec![arg(Expr::Int(253_370_764_799), 0, 1)]));
    assert!(r.contains("9998") || r.contains("9999"), "{}", r);
    let r = string_of(time::to_iso_8601(vec![arg(Expr::Int(0), 0, 1)]));
    assert!(r.starts_with("1970-01-01T") || r.starts_with("1969-12-31T"), "{}", r);
    let r = string_of(time::to_local_date_time(vec![arg(Expr::Int(0), 0, 1)]));
    assert!(r.ends_with("1970") || r.ends_with("1969"), "{}", r);
}

#[test]
fn get_current_time() {
    let before = std::time::SystemTime::now()
        .duration_since(std::time::UNIX_EPOCH)
        .unwrap()
        .as_secs() as i64;
    let now = match time::now_unix(vec![]) {
        Ok(InternalFunctionResponse { return_value: Expr::Int(n), replace_self: None }) => n,
        other => panic!("{:?}", other),
    };
    assert!(before <= now && now <= before + 5);
    assert!(!string_of(time::now_utc(vec![])).is_empty());
    assert!(!string_of(time::now_local(vec![])).is_empty());
}

// --- math -------------------------------------------------------------------

#[test]
fn math_on_integers() {
    let two = |a: i64, b: i64| vec![arg(Expr::Int(a), 0, 1), arg(Expr::Int(b), 2, 3)];
    assert!(matches!(math::mul(two(6, 7)), Ok(InternalFunctionResponse { return_value: Expr::Int(42), .. })));
    assert!(matches!(
        math::mul(two(i64::MAX, 2)),
        Ok(InternalFunctionResponse { return_value: Expr::Int(-2), .. })
    ));
    assert!(matches!(math::pow(two(2, 10)), Ok(InternalFunctionResponse { return_value: Expr::Int(1024), .. })));
    assert!(matches!(math::pow(two(7, 0)), Ok(InternalFunctionResponse { return_value: Expr::Int(1), .. })));
    assert!(matches!(
        math::abs(vec![arg(Expr::Int(-5), 0, 1)]),
        Ok(InternalFunctionResponse { return_value: Expr::Int(5), .. })
    ));
    assert!(matches!(
        math::abs(vec![arg(Expr::Int(i64::MIN), 0, 1)]),
        Ok(InternalFunctionResponse { return_value: Expr::Int(i64::MIN), .. })
    ));
    assert_eq!(error_of(math::div(two(1, 0))), ("division by zero".to_string(), Span::new(2, 3)));
    assert_eq!(error_of(math::div(two(1, 2))).0, "needs the host");
}

#[test]
fn math_checks_its_arguments() {
    assert_eq!(error_of(math::mul(vec![])), ("mul takes exactly two arguments".to_string(), Span::new(0, 0)));
    assert_eq!(
        error_of(math::mul(vec![arg(Expr::Int(1), 0, 1), arg(Expr::Null, 2, 3)])).0,
        "mul expects number arguments"
    );
    assert_eq!(error_of(math::abs(vec![arg(Expr::Null, 0, 1)])).0, "abs expects a number argument");
    assert_eq!(error_of(math::abs(vec![])).0, "abs takes exactly one argument");
    assert_eq!(
        error_of(math::pow(vec![arg(Expr::Bool(true), 0, 1), arg(Expr::Int(1), 2, 3)])).0,
        "pow expects number arguments"
    );
    assert_eq!(
        error_of(math::div(vec![arg(Expr::Int(1), 0, 1), arg(Expr::Null, 2, 3)])).0,
        "div expects number arguments"
    );
    let floats = vec![
        arg(Expr::Float(Float { bits: 1.5f64.to_bits() }), 0, 1),
        arg(Expr::Int(2), 2, 3),
    ];
    assert_eq!(error_of(math::mul(floats)).0, "needs the host");
}

// --- os, http, ffi ----------------------------------------------------------

#[test]
fn commands_are_cleaned() {
    assert_eq!(os::clean_command("  \"echo hi\" \n".to_string()), "echo hi");
    assert_eq!(os::clean_command("'ls'".to_string()), "ls");
    assert_eq!(os::clean_command("\"\"'a b'\"\"".to_string()), "a b");
    assert_eq!(os::clean_command("   ".to_string()), "");
    assert_eq!(os::clean_command("a \"b\"".to_string()), "a \"b");
    assert_eq!(os::clean_command("\u{a0}x\u{3000}".to_string()), "x");
}

#[test]
fn exec_prepares_its_command() {
    assert_eq!(os::exec(&text(" 'ls -l' ")).unwrap(), "ls -l");
    assert_eq!(os::exec(&vec![]).unwrap_err().0, "exec takes exactly one argument");
    assert_eq!(
        os::exec(&vec![arg(Expr::Int(1), 0, 1)]).unwrap_err(),
        ("exec expects a string argument".to_string(), Span::new(0, 1))
    );
    assert_eq!(string_of(os::output("out\n", "err\n \n")), "out\nerr");
    assert_eq!(string_of(os::output("", "")), "");
}

#[test]
fn http_requests_are_prepared() {
    let q = http::request(http::Method::Get, false, &text("http://localhost/")).unwrap();
    assert_eq!(q.method, http::Method::Get);
    assert_eq!(q.url, "http://localhost/");
    assert!(q.body.is_none());
    let args = vec![
        arg(Expr::String("u".to_string()), 0, 1),
        arg(Expr::String("b".to_string()), 2, 3),
    ];
    let q = http::request(http::Method::Post, true, &args).unwrap();
    assert_eq!(q.body.as_deref(), Some("b"));
    assert_eq!(
        http::request(http::Method::Put, true, &text("u")).unwrap_err(),
        ("put expects a string as the second argument".to_string(), Span::new(3, 9))
    );
    assert_eq!(
        http::request(http::Method::Delete, false, &vec![arg(Expr::Int(1), 0, 1)]).unwrap_err(),
        ("delete expects a string as the first argument".to_string(), Span::new(0, 1))
    );
}

#[test]
fn http_functions_by_name() {
    assert_eq!(http::get(&text("u")).unwrap().method, http::Method::Get);
    assert_eq!(http::delete(&text("u")).unwrap().method, http::Method::Delete);
    let args = vec![
        arg(Expr::String("u".to_string()), 0, 1),
        arg(Expr::String("b".to_string()), 2, 3),
    ];
    assert_eq!(http::post(&args).unwrap().method, http::Method::Post);
    assert_eq!(http::put(&args).unwrap().method, http::Method::Put);
    assert_eq!(http::patch(&args).unwrap().body.as_deref(), Some("b"));
    assert_eq!(http::post(&text("u")).unwrap_err().0, "post expects a string as the second argument");
    assert_eq!(http::get(&vec![]).unwrap_err(), ("get expects a string as the first argument".to_string(), Span::new(0, 0)));
}

#[test]
fn native_calls_are_prepared() {
    let handle = modu::ast::LibraryHandle { id: 3 };
    let args = vec![arg(Expr::Int(-1), 0, 1), arg(Expr::Float(Float { bits: 7 }), 2, 3)];
    match ffi::execute_ffi_call(handle, "add", &args) {
        Ok(modu::session::Request::Ffi { library, symbol, args }) => {
            assert_eq!(library, handle);
            assert_eq!(symbol, "add");
            assert!(matches!(args[0], modu::session::FFIArgument::Integer(-1)));
            assert!(matches!(args[1], modu::session::FFIArgument::Float(Float { bits: 7 })));
        }
        other => panic!("{:?}", other),
    }
    let bad = vec![arg(Expr::Array(vec![]), 0, 1)];
    assert_eq!(ffi::execute_ffi_call(handle, "add", &bad).unwrap_err(), "Unsupported argument type for FFI call");
    assert_eq!(ffi::load(&text("lib.so"), "dir/").unwrap(), "dir/lib.so");
    assert_eq!(ffi::load(&vec![], "dir/").unwrap_err().0, "load expects a string argument");
}

#[test]
fn http_responses_become_objects() {
    let headers = vec![Binding { name: "content-type".to_string(), value: Expr::String("text/plain".to_string()) }];
    let r = http::response(204, "No Content", headers, "".to_string()).unwrap();
    match r.return_value {
        Expr::Object { properties } => {
            let names: Vec<&str> = properties.iter().map(|b| b.name.as_str()).collect();
            assert_eq!(names, ["status", "status_text", "headers", "body", "ok"]);
            assert!(matches!(properties[0].value, Expr::Int(204)));
            assert!(matches!(properties[4].value, Expr::Bool(true)));
        }
        other => panic!("{:?}", other),
    }
    let r = http::response(404, "Not Found", vec![], "".to_string()).unwrap();
    match r.return_value {
        Expr::Object { properties } => assert!(matches!(properties[4].value, Expr::Bool(false))),
        other => panic!("{:?}", other),
    }
}

#[test]
fn values_come_back_from_native_code() {
    let f = Float { bits: 2.5f64.to_bits() };
    assert!(matches!(ffi::value_of(ffi::FFIType::Integer, -3, f, true, String::new()), Expr::Int(-3)));
    assert!(matches!(ffi::value_of(ffi::FFIType::Null, -3, f, true, String::new()), Expr::Null));
    assert!(matches!(ffi::value_of(ffi::FFIType::Boolean, -3, f, true, String::new()), Expr::Bool(true)));
    assert!(matches!(ffi::value_of(ffi::FFIType::Float, -3, f, true, String::new()), Expr::Float(g) if g == f));
    assert!(matches!(
        ffi::value_of(ffi::FFIType::String, -3, f, true, "hi".to_string()),
        Expr::String(s) if s == "hi"
    ));
}

// --- the registry -----------------------------------------------------------

#[test]
fn packages_of_the_registry() {
    for name in ["time", "math", "json", "crypto", "encoding", "uuid", "os", "http", "ffi"] {
        assert!(get_package(name, false, "linux").is_some(), "{}", name);
    }
    for name in ["os", "http", "ffi"] {
        assert!(get_package(name, true, "linux").is_none(), "{}", name);
    }
    for name in ["time", "math", "json", "crypto", "encoding", "uuid"] {
        assert!(get_package(name, true, "linux").is_some(), "{}", name);
    }
    assert!(get_package("file", false, "linux").is_none());
    assert!(get_package("", false, "linux").is_none());
}

#[test]
fn modules_of_the_libraries() {
    assert_eq!(symbol_names(&math::get_object()), ["mul", "div", "abs", "pow"]);
    assert_eq!(
        symbol_names(&encoding::get_object()),
        ["encode_base64", "decode_base64", "encode_base16", "decode_base16"]
    );
    assert_eq!(symbol_names(&crypto::get_object()).len(), 10);
    assert_eq!(symbol_names(&time::get_object()).len(), 7);
    assert_eq!(symbol_names(&http::get_object()), ["get", "post", "put", "patch", "delete"]);
    assert_eq!(symbol_names(&ffi::get_object()), ["load"]);
    assert_eq!(symbol_names(&os::get_object("linux")), ["exec", "name"]);
}

// --- dispatch ---------------------------------------------------------------

#[test]
fn natives_that_the_library_runs() {
    assert!(call_native(Native::Sha256, text("abc")).is_some());
    assert!(call_native(Native::Str, vec![arg(Expr::Int(1), 0, 1)]).is_some());
    assert!(call_native(Native::Str, vec![arg(Expr::Float(Float { bits: 0 }), 0, 1)]).is_none());
    assert!(call_native(Native::Input, vec![]).is_none());
    assert!(call_native(Native::NowUnix, vec![]).is_none());
    assert!(call_native(Native::HttpGet, text("u")).is_none());
}

#[test]
fn natives_that_the_host_serves_here() {
    assert!(serve(Native::NowUnix, vec![]).is_some());
    assert!(serve(Native::NowUtc, vec![]).is_some());
    assert!(serve(Native::ToIso8601, vec![arg(Expr::Int(0), 0, 1)]).is_some());
    assert!(serve(Native::Sha256, text("abc")).is_none());
    assert!(serve(Native::Input, vec![]).is_none());
}
