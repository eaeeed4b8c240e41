//! The package `crypto`: digests of texts and password hashes.
//!
//! The digests and the verifications depend on their arguments alone and
//! are named here; the hash of a password also depends on a random salt.

use crate::ast::{nodes_view, Expr, ExprView, InternalFunctionResponse, Span, SpannedExpr, SpannedView};
use crate::builtins::array::{done, fail, failure, first_span, gives, span_of_first, value, NativeResult};
use crate::text::joined;
use argon2::PasswordHasher;
use argon2::PasswordVerifier;
use sha2::Digest;
use vstd::prelude::*;

verus! {

/// The SHA-256 digest of the UTF-8 bytes of a text, in lower-case
/// hexadecimal notation.
pub uninterp spec fn sha256_text(input: Seq<char>) -> Seq<char>;

/// The SHA-512 digest of the UTF-8 bytes of a text, in lower-case
/// hexadecimal notation.
pub uninterp spec fn sha512_text(input: Seq<char>) -> Seq<char>;

/// The BLAKE3 digest of the UTF-8 bytes of a text, in lower-case
/// hexadecimal notation.
pub uninterp spec fn blake3_text(input: Seq<char>) -> Seq<char>;

/// The MD5 digest of the UTF-8 bytes of a text, in lower-case hexadecimal
/// notation.
pub uninterp spec fn md5_text(input: Seq<char>) -> Seq<char>;

/// Whether a password fits a bcrypt hash, or the message of the error that
/// the hash is not one.
pub uninterp spec fn bcrypt_verdict(password: Seq<char>, hash: Seq<char>) -> Result<bool, Seq<char>>;

/// The Argon2 hash of a password with a salt, in PHC notation, or the
/// message of the error that the salt or the password is refused.
pub uninterp spec fn argon2_hash_text(password: Seq<char>, salt: Seq<char>) -> Result<
    Seq<char>,
    Seq<char>,
>;

/// Whether a password fits an Argon2 hash in PHC notation, or the message
/// of the error that the hash is not in that notation.
pub uninterp spec fn argon2_verdict(password: Seq<char>, hash: Seq<char>) -> Result<bool, Seq<char>>;

/// The scrypt hash of a password with a salt, in PHC notation, or the
/// message of the error that the salt or the password is refused.
pub uninterp spec fn scrypt_hash_text(password: Seq<char>, salt: Seq<char>) -> Result<
    Seq<char>,
    Seq<char>,
>;

/// Whether a password fits a scrypt hash in PHC notation, or the message of
/// the error that the hash is not in that notation.
pub uninterp spec fn scrypt_verdict(password: Seq<char>, hash: Seq<char>) -> Result<bool, Seq<char>>;

/// The model of a text or the message of an error.
pub open spec fn text_result(r: Result<String, String>) -> Result<Seq<char>, Seq<char>> {
    match r {
        Ok(s) => Ok(s@),
        Err(e) => Err(e@),
    }
}

/// The model of a verdict or the message of an error.
pub open spec fn verdict_result(r: Result<bool, String>) -> Result<bool, Seq<char>> {
    match r {
        Ok(b) => Ok(b),
        Err(e) => Err(e@),
    }
}

/// Trusted: `sha2::Sha256::digest` on the bytes of `input`, written with
/// the `{:x}` format of the digest, which is its lower-case hexadecimal
/// notation. The result is a function of the input alone.
#[verifier::external_body]
fn sha256_hex(input: &str) -> (r: String)
    ensures
        r@ == sha256_text(input@),
{
    format!("{:x}", sha2::Sha256::digest(input.as_bytes()))
}

/// Trusted: `sha2::Sha512::digest` on the bytes of `input`, written with
/// the `{:x}` format of the digest. The result is a function of the input
/// alone.
#[verifier::external_body]
fn sha512_hex(input: &str) -> (r: String)
    ensures
        r@ == sha512_text(input@),
{
    format!("{:x}", sha2::Sha512::digest(input.as_bytes()))
}

/// Trusted: `blake3::hash` on the bytes of `input`, and the digest's
/// `to_hex`. The result is a function of the input alone.
#[verifier::external_body]
fn blake3_hex(input: &str) -> (r: String)
    ensures
        r@ == blake3_text(input@),
{
    blake3::hash(input.as_bytes()).to_hex().to_string()
}

/// Trusted: `md5::compute` on the bytes of `input`, written with the `{:x}`
/// format of the digest. The result is a function of the input alone.
#[verifier::external_body]
fn md5_hex(input: &str) -> (r: String)
    ensures
        r@ == md5_text(input@),
{
    format!("{:x}", md5::compute(input.as_bytes()))
}

/// Trusted: `bcrypt::hash` with the given cost. The function draws a random
/// salt, so nothing is claimed of the result.
#[verifier::external_body]
fn bcrypt_hashed(input: &str, cost: u32) -> (r: Result<String, String>) {
    bcrypt::hash(input, cost).map_err(|e| e.to_string())
}

/// Trusted: `bcrypt::verify`. The result, the error's message included, is
/// a function of the password and the hash.
#[verifier::external_body]
fn bcrypt_verified(password: &str, hash: &str) -> (r: Result<bool, String>)
    ensures
        verdict_result(r) == bcrypt_verdict(password@, hash@),
{
    bcrypt::verify(password, hash).map_err(|e| e.to_string())
}

/// Trusted: `SaltString::generate` of the crate `password-hash` with the
/// thread's random number generator of the crate `rand`; the salt is handed
/// back in its Base64 notation. Nothing is claimed of the result.
#[verifier::external_body]
fn random_salt() -> (r: String) {
    argon2::password_hash::SaltString::generate(&mut rand::thread_rng()).as_str().to_string()
}

/// Trusted: `Argon2::default().hash_password` with the salt that `salt`
/// writes in Base64 notation (`SaltString::from_b64`). The result, the
/// error's message included, is a function of the password and the salt.
#[verifier::external_body]
fn argon2_hashed(password: &str, salt: &str) -> (r: Result<String, String>)
    ensures
        text_result(r) == argon2_hash_text(password@, salt@),
{
    match argon2::password_hash::SaltString::from_b64(salt) {
        Err(e) => Err(e.to_string()),
        Ok(s) => argon2::Argon2::default().hash_password(password.as_bytes(), &s).map(
            |h| h.to_string(),
        ).map_err(|e| e.to_string()),
    }
}

/// Trusted: `PasswordHash::new` on the hash and, where it parses,
/// `Argon2::default().verify_password`, whose success is the verdict.
/// The result is a function of the password and the hash.
#[verifier::external_body]
fn argon2_verified(password: &str, hash: &str) -> (r: Result<bool, String>)
    ensures
        verdict_result(r) == argon2_verdict(password@, hash@),
{
    match argon2::PasswordHash::new(hash) {
        Err(e) => Err(e.to_string()),
        Ok(parsed) => Ok(
            argon2::Argon2::default().verify_password(password.as_bytes(), &parsed).is_ok(),
        ),
    }
}

/// Trusted: `scrypt::Scrypt.hash_password` with the salt that `salt`
/// writes in Base64 notation. The result, the error's message included, is
/// a function of the password and the salt.
#[verifier::external_body]
fn scrypt_hashed(password: &str, salt: &str) -> (r: Result<String, String>)
    ensures
        text_result(r) == scrypt_hash_text(password@, salt@),
{
    match scrypt::password_hash::SaltString::from_b64(salt) {
        Err(e) => Err(e.to_string()),
        Ok(s) => scrypt::Scrypt.hash_password(password.as_bytes(), &s).map(|h| h.to_string()).map_err(
            |e| e.to_string(),
        ),
    }
}

/// Trusted: `PasswordHash::new` on the hash and, where it parses,
/// `scrypt::Scrypt.verify_password`, whose success is the verdict. The
/// result is a function of the password and the hash.
#[verifier::external_body]
fn scrypt_verified(password: &str, hash: &str) -> (r: Result<bool, String>)
    ensures
        verdict_result(r) == scrypt_verdict(password@, hash@),
{
    match scrypt::password_hash::PasswordHash::new(hash) {
        Err(e) => Err(e.to_string()),
        Ok(parsed) => Ok(scrypt::Scrypt.verify_password(password.as_bytes(), &parsed).is_ok()),
    }
}

// ---------------------------------------------------------------------------
// Arguments
// ---------------------------------------------------------------------------

/// The text that is the argument at position `i`, if there is one.
pub open spec fn text_at(args: Seq<SpannedView>, i: int) -> Option<Seq<char>> {
    if 0 <= i < args.len() && args[i].node is String {
        Some(args[i].node->String_0)
    } else {
        None
    }
}

/// The span of the argument at position `i`, or of the first argument, or
/// the empty span.
pub open spec fn span_at(args: Seq<SpannedView>, i: int) -> Span {
    if 0 <= i < args.len() {
        args[i].span
    } else {
        first_span(args)
    }
}

/// The text that is the argument at position `i`, if there is one.
pub fn text_argument(args: &Vec<SpannedExpr>, i: usize) -> (r: Option<String>)
    ensures
        match r {
            Some(s) => text_at(nodes_view(args@), i as int) == Some(s@),
            None => text_at(nodes_view(args@), i as int) is None,
        },
{
    if i < args.len() {
        assert(nodes_view(args@)[i as int] == args@[i as int]@);
        match &args[i].node {
            Expr::String(s) => Some(s.clone()),
            _ => None,
        }
    } else {
        None
    }
}

/// The span of the argument at position `i`, or of the first argument.
pub fn span_argument(args: &Vec<SpannedExpr>, i: usize) -> (r: Span)
    ensures
        r == span_at(nodes_view(args@), i as int),
{
    if i < args.len() {
        assert(nodes_view(args@)[i as int] == args@[i as int]@);
        args[i].span
    } else {
        span_of_first(args)
    }
}

/// The result of a digest function: the digest of its text argument.
pub open spec fn digest_spec(
    args: Seq<SpannedView>,
    digest: spec_fn(Seq<char>) -> Seq<char>,
    complaint: Seq<char>,
) -> NativeResult {
    match text_at(args, 0) {
        Some(input) => value(ExprView::String(digest(input))),
        None => failure(complaint, first_span(args)),
    }
}

/// `sha256`.
pub open spec fn sha256_spec(args: Seq<SpannedView>) -> NativeResult {
    digest_spec(args, |s: Seq<char>| sha256_text(s), "sha256 expects a string argument"@)
}

/// `sha512`.
pub open spec fn sha512_spec(args: Seq<SpannedView>) -> NativeResult {
    digest_spec(args, |s: Seq<char>| sha512_text(s), "sha512 expects a string argument"@)
}

/// `blake3`.
pub open spec fn blake3_spec(args: Seq<SpannedView>) -> NativeResult {
    digest_spec(args, |s: Seq<char>| blake3_text(s), "blake3 expects a string argument"@)
}

/// `md5`.
pub open spec fn md5_spec(args: Seq<SpannedView>) -> NativeResult {
    digest_spec(args, |s: Seq<char>| md5_text(s), "md5 expects a string argument"@)
}

/// `sha256`: the SHA-256 digest of a text.
pub fn sha256(args: Vec<SpannedExpr>) -> (r: Result<InternalFunctionResponse, (String, Span)>)
    ensures
        gives(r, sha256_spec(nodes_view(args@))),
{
    match text_argument(&args, 0) {
        Some(input) => done(Expr::String(sha256_hex(input.as_str()))),
        None => fail("sha256 expects a string argument", span_of_first(&args)),
    }
}

/// `sha512`: the SHA-512 digest of a text.
pub fn sha512(args: Vec<SpannedExpr>) -> (r: Result<InternalFunctionResponse, (String, Span)>)
    ensures
        gives(r, sha512_spec(nodes_view(args@))),
{
    match text_argument(&args, 0) {
        Some(input) => done(Expr::String(sha512_hex(input.as_str()))),
        None => fail("sha512 expects a string argument", span_of_first(&args)),
    }
}

/// `blake3`: the BLAKE3 digest of a text.
pub fn blake3(args: Vec<SpannedExpr>) -> (r: Result<InternalFunctionResponse, (String, Span)>)
    ensures
        gives(r, blake3_spec(nodes_view(args@))),
{
    match text_argument(&args, 0) {
        Some(input) => done(Expr::String(blake3_hex(input.as_str()))),
        None => fail("blake3 expects a string argument", span_of_first(&args)),
    }
}

/// The outdated digest; the package has it in its module `legacy`.
pub fn md5(args: Vec<SpannedExpr>) -> (r: Result<InternalFunctionResponse, (String, Span)>)
    ensures
        gives(r, md5_spec(nodes_view(args@))),
{
    match text_argument(&args, 0) {
        Some(input) => done(Expr::String(md5_hex(input.as_str()))),
        None => fail("md5 expects a string argument", span_of_first(&args)),
    }
}

/// What a hash function returns for what the hashing gave: the hash, or a
/// failure whose message starts with `complaint`.
pub open spec fn hash_response(
    hashed: Result<Seq<char>, Seq<char>>,
    complaint: Seq<char>,
    span: Span,
) -> NativeResult {
    match hashed {
        Ok(hash) => value(ExprView::String(hash)),
        Err(e) => failure(complaint + e, span),
    }
}

/// What a hash function returns for what the hashing gave.
pub fn respond_hash(hashed: Result<String, String>, complaint: &str, span: Span) -> (r: Result<
    InternalFunctionResponse,
    (String, Span),
>)
    ensures
        gives(r, hash_response(text_result(hashed), complaint@, span)),
{
    match hashed {
        Ok(hash) => done(Expr::String(hash)),
        Err(e) => Err((joined(complaint, e.as_str()), span)),
    }
}

/// What a verification returns for what the verifying gave: the verdict, or
/// a failure whose message starts with `complaint`.
pub open spec fn verdict_response(
    verdict: Result<bool, Seq<char>>,
    complaint: Seq<char>,
    span: Span,
) -> NativeResult {
    match verdict {
        Ok(b) => value(ExprView::Bool(b)),
        Err(e) => failure(complaint + e, span),
    }
}

/// What a verification returns for what the verifying gave.
pub fn respond_verdict(verdict: Result<bool, String>, complaint: &str, span: Span) -> (r: Result<
    InternalFunctionResponse,
    (String, Span),
>)
    ensures
        gives(r, verdict_response(verdict_result(verdict), complaint@, span)),
{
    match verdict {
        Ok(b) => done(Expr::Bool(b)),
        Err(e) => Err((joined(complaint, e.as_str()), span)),
    }
}

/// What holds of every result of `bcrypt_hash`: without a text argument
/// it is the failure that says so; with one it is what `hash_response`
/// makes of some outcome of the hashing.
pub open spec fn bcrypt_hash_gives(
    args: Seq<SpannedView>,
    r: Result<InternalFunctionResponse, (String, Span)>,
) -> bool {
    if text_at(args, 0) is None {
        gives(r, failure("bcrypt_hash expects a string argument"@, first_span(args)))
    } else {
        exists|hashed: Result<Seq<char>, Seq<char>>|
            gives(r, hash_response(hashed, "bcrypt_hash failed: "@, first_span(args)))
    }
}

/// What holds of every result of `argon2_hash`: it is the hash with some
/// salt.
pub open spec fn argon2_hash_gives(
    args: Seq<SpannedView>,
    r: Result<InternalFunctionResponse, (String, Span)>,
) -> bool {
    exists|salt: Seq<char>| gives(r, argon2_hash_spec(args, salt))
}

/// What holds of every result of `scrypt_hash`: it is the hash with some
/// salt.
pub open spec fn scrypt_hash_gives(
    args: Seq<SpannedView>,
    r: Result<InternalFunctionResponse, (String, Span)>,
) -> bool {
    exists|salt: Seq<char>| gives(r, scrypt_hash_spec(args, salt))
}

/// `bcrypt_hash`: the bcrypt hash of a password at cost 12, with a random
/// salt.
pub fn bcrypt_hash(args: Vec<SpannedExpr>) -> (r: Result<InternalFunctionResponse, (String, Span)>)
    ensures
        bcrypt_hash_gives(nodes_view(args@), r),
{
    match text_argument(&args, 0) {
        Some(input) => {
            let hashed = bcrypt_hashed(input.as_str(), 12);
            let ghost h = text_result(hashed);
            let r = respond_hash(hashed, "bcrypt_hash failed: ", span_of_first(&args));
            assert(gives(r, hash_response(h, "bcrypt_hash failed: "@, first_span(nodes_view(args@)))));
            r
        },
        None => fail("bcrypt_hash expects a string argument", span_of_first(&args)),
    }
}

/// The result of a verification function on `args`.
pub open spec fn verify_spec(
    args: Seq<SpannedView>,
    verdict: spec_fn(Seq<char>, Seq<char>) -> Result<bool, Seq<char>>,
    first_complaint: Seq<char>,
    second_complaint: Seq<char>,
    failed: Seq<char>,
    failed_at: int,
) -> NativeResult {
    match text_at(args, 0) {
        None => failure(first_complaint, first_span(args)),
        Some(password) => match text_at(args, 1) {
            None => failure(second_complaint, span_at(args, 1)),
            Some(hash) => verdict_response(verdict(password, hash), failed, span_at(args, failed_at)),
        },
    }
}

/// `bcrypt_verify`.
pub open spec fn bcrypt_verify_spec(args: Seq<SpannedView>) -> NativeResult {
    verify_spec(
        args,
        |p: Seq<char>, h: Seq<char>| bcrypt_verdict(p, h),
        "bcrypt_verify expects the first argument to be a string"@,
        "bcrypt_verify expects the second argument to be a string"@,
        "bcrypt_verify failed: "@,
        0,
    )
}

/// `argon2_verify`.
pub open spec fn argon2_verify_spec(args: Seq<SpannedView>) -> NativeResult {
    verify_spec(
        args,
        |p: Seq<char>, h: Seq<char>| argon2_verdict(p, h),
        "argon2_verify expects the first argument to be a string"@,
        "argon2_verify expects the second argument to be a string"@,
        "argon2_verify failed to parse hash: "@,
        1,
    )
}

/// `scrypt_verify`.
pub open spec fn scrypt_verify_spec(args: Seq<SpannedView>) -> NativeResult {
    verify_spec(
        args,
        |p: Seq<char>, h: Seq<char>| scrypt_verdict(p, h),
        "scrypt_verify expects the first argument to be a string"@,
        "scrypt_verify expects the second argument to be a string"@,
        "scrypt_verify failed to parse hash: "@,
        1,
    )
}

/// `bcrypt_verify`: whether a password fits a bcrypt hash.
pub fn bcrypt_verify(args: Vec<SpannedExpr>) -> (r: Result<InternalFunctionResponse, (String, Span)>)
    ensures
        gives(r, bcrypt_verify_spec(nodes_view(args@))),
{
    match text_argument(&args, 0) {
        None => fail("bcrypt_verify expects the first argument to be a string", span_of_first(&args)),
        Some(password) => match text_argument(&args, 1) {
            None => fail(
                "bcrypt_verify expects the second argument to be a string",
                span_argument(&args, 1),
            ),
            Some(hash) => respond_verdict(
                bcrypt_verified(password.as_str(), hash.as_str()),
                "bcrypt_verify failed: ",
                span_argument(&args, 0),
            ),
        },
    }
}

/// `argon2_verify`: whether a password fits an Argon2 hash.
pub fn argon2_verify(args: Vec<SpannedExpr>) -> (r: Result<InternalFunctionResponse, (String, Span)>)
    ensures
        gives(r, argon2_verify_spec(nodes_view(args@))),
{
    match text_argument(&args, 0) {
        None => fail("argon2_verify expects the first argument to be a string", span_of_first(&args)),
        Some(password) => match text_argument(&args, 1) {
            None => fail(
                "argon2_verify expects the second argument to be a string",
                span_argument(&args, 1),
            ),
            Some(hash) => respond_verdict(
                argon2_verified(password.as_str(), hash.as_str()),
                "argon2_verify failed to parse hash: ",
                span_argument(&args, 1),
            ),
        },
    }
}

/// `scrypt_verify`: whether a password fits a scrypt hash.
pub fn scrypt_verify(args: Vec<SpannedExpr>) -> (r: Result<InternalFunctionResponse, (String, Span)>)
    ensures
        gives(r, scrypt_verify_spec(nodes_view(args@))),
{
    match text_argument(&args, 0) {
        None => fail("scrypt_verify expects the first argument to be a string", span_of_first(&args)),
        Some(password) => match text_argument(&args, 1) {
            None => fail(
                "scrypt_verify expects the second argument to be a string",
                span_argument(&args, 1),
            ),
            Some(hash) => respond_verdict(
                scrypt_verified(password.as_str(), hash.as_str()),
                "scrypt_verify failed to parse hash: ",
                span_argument(&args, 1),
            ),
        },
    }
}

/// The Argon2 hash of the password that `args` hold, with the salt `salt`.
pub open spec fn argon2_hash_spec(args: Seq<SpannedView>, salt: Seq<char>) -> NativeResult {
    match text_at(args, 0) {
        Some(input) => hash_response(
            argon2_hash_text(input, salt),
            "argon2_hash failed: "@,
            first_span(args),
        ),
        None => failure("argon2_hash expects a string argument"@, first_span(args)),
    }
}

/// The scrypt hash of the password that `args` hold, with the salt `salt`.
pub open spec fn scrypt_hash_spec(args: Seq<SpannedView>, salt: Seq<char>) -> NativeResult {
    match text_at(args, 0) {
        Some(input) => hash_response(
            scrypt_hash_text(input, salt),
            "scrypt_hash failed: "@,
            first_span(args),
        ),
        None => failure("scrypt_hash expects a string argument"@, first_span(args)),
    }
}

/// The Argon2 hash of a password with the given salt in Base64 notation.
pub fn argon2_hash_with(args: Vec<SpannedExpr>, salt: &str) -> (r: Result<
    InternalFunctionResponse,
    (String, Span),
>)
    ensures
        gives(r, argon2_hash_spec(nodes_view(args@), salt@)),
{
    match text_argument(&args, 0) {
        Some(input) => respond_hash(
            argon2_hashed(input.as_str(), salt),
            "argon2_hash failed: ",
            span_of_first(&args),
        ),
        None => fail("argon2_hash expects a string argument", span_of_first(&args)),
    }
}

/// `argon2_hash`: the Argon2 hash of a password with a random salt.
pub fn argon2_hash(args: Vec<SpannedExpr>) -> (r: Result<InternalFunctionResponse, (String, Span)>)
    ensures
        argon2_hash_gives(nodes_view(args@), r),
{
    let salt = random_salt();
    let r = argon2_hash_with(args, salt.as_str());
    assert(gives(r, argon2_hash_spec(nodes_view(args@), salt@)));
    r
}

/// The scrypt hash of a password with the given salt in Base64 notation.
pub fn scrypt_hash_with(args: Vec<SpannedExpr>, salt: &str) -> (r: Result<
    InternalFunctionResponse,
    (String, Span),
>)
    ensures
        gives(r, scrypt_hash_spec(nodes_view(args@), salt@)),
{
    match text_argument(&args, 0) {
        Some(input) => respond_hash(
            scrypt_hashed(input.as_str(), salt),
            "scrypt_hash failed: ",
            span_of_first(&args),
        ),
        None => fail("scrypt_hash expects a string argument", span_of_first(&args)),
    }
}

/// `scrypt_hash`: the scrypt hash of a password with a random salt.
pub fn scrypt_hash(args: Vec<SpannedExpr>) -> (r: Result<InternalFunctionResponse, (String, Span)>)
    ensures
        scrypt_hash_gives(nodes_view(args@), r),
{
    let salt = random_salt();
    let r = scrypt_hash_with(args, salt.as_str());
    assert(gives(r, scrypt_hash_spec(nodes_view(args@), salt@)));
    r
}

/// The package `crypto`.
pub fn get_object() -> (r: Expr)
    ensures
        r@ == (ExprView::Module { symbols: crate::libraries::crypto_symbols() }),
{
    crate::libraries::crypto_object()
}

} // verus!
