//! The package `encoding`: Base64 and Base16 notation of texts.

use crate::ast::{nodes_view, Expr, ExprView, InternalFunctionResponse, Span, SpannedExpr, SpannedView};
use crate::builtins::array::{done, fail, failure, first_span, gives, span_of_first, value, NativeResult};
use crate::libraries::crypto::{text_argument, text_at};
use crate::text::joined;
use vstd::prelude::*;
use vstd::utf8::{decode_utf8, encode_utf8, valid_utf8};

verus! {

/// The standard Base64 notation, padded, of the UTF-8 bytes of a text.
pub uninterp spec fn base64_text(input: Seq<char>) -> Seq<char>;

/// The bytes that a text writes in standard Base64 notation, or the message
/// of the error that it does not.
pub uninterp spec fn base64_bytes(input: Seq<char>) -> Result<Seq<u8>, Seq<char>>;

/// The Base16 notation in lower case of the UTF-8 bytes of a text.
pub uninterp spec fn base16_text(input: Seq<char>) -> Seq<char>;

/// The bytes that a text writes in Base16 notation, or the message of the
/// error that it does not.
pub uninterp spec fn base16_bytes(input: Seq<char>) -> Result<Seq<u8>, Seq<char>>;

/// The message of the error that bytes are not UTF-8.
pub uninterp spec fn utf8_error_text(bytes: Seq<u8>) -> Seq<char>;

/// The model of bytes or the message of an error.
pub open spec fn bytes_result(r: Result<Vec<u8>, String>) -> Result<Seq<u8>, Seq<char>> {
    match r {
        Ok(b) => Ok(b@),
        Err(e) => Err(e@),
    }
}

/// The longest input, in bytes, that the encoders take.
pub open spec fn longest_input() -> int {
    (usize::MAX / 2) as int
}

/// Trusted: `Engine::encode` of the crate `base64` with its `STANDARD`
/// engine. The function panics where the length of the output does not fit
/// in `usize`, which the bound on the input excludes. The result is a
/// function of the input alone.
#[verifier::external_body]
fn base64_encoded(input: &str) -> (r: String)
    requires
        encode_utf8(input@).len() <= longest_input(),
    ensures
        r@ == base64_text(input@),
{
    base64::Engine::encode(&base64::engine::general_purpose::STANDARD, input)
}

/// Trusted: `Engine::decode` of the crate `base64` with its `STANDARD`
/// engine. The result, the error's message included, is a function of the
/// input alone.
#[verifier::external_body]
fn base64_decoded(input: &str) -> (r: Result<Vec<u8>, String>)
    ensures
        bytes_result(r) == base64_bytes(input@),
{
    base64::Engine::decode(&base64::engine::general_purpose::STANDARD, input).map_err(
        |e| e.to_string(),
    )
}

/// Trusted: `base16::encode_lower`. The function panics where the length of
/// the input has its top bit set, which the bound excludes. The result is a
/// function of the input alone.
#[verifier::external_body]
fn base16_encoded(input: &str) -> (r: String)
    requires
        encode_utf8(input@).len() <= longest_input(),
    ensures
        r@ == base16_text(input@),
{
    base16::encode_lower(input.as_bytes())
}

/// Trusted: `base16::decode`. The result, the error's message included, is
/// a function of the input alone.
#[verifier::external_body]
fn base16_decoded(input: &str) -> (r: Result<Vec<u8>, String>)
    ensures
        bytes_result(r) == base16_bytes(input@),
{
    base16::decode(input).map_err(|e| e.to_string())
}

/// Trusted: `String::from_utf8`, which succeeds exactly on bytes that are
/// UTF-8 and then gives the text that they encode. The error's message is a
/// function of the bytes.
#[verifier::external_body]
fn text_from_utf8(bytes: Vec<u8>) -> (r: Result<String, String>)
    ensures
        match r {
            Ok(s) => valid_utf8(bytes@) && s@ == decode_utf8(bytes@),
            Err(e) => !valid_utf8(bytes@) && e@ == utf8_error_text(bytes@),
        },
{
    String::from_utf8(bytes).map_err(|e| e.to_string())
}

/// The result of an encoder on `args`.
pub open spec fn encode_spec(
    args: Seq<SpannedView>,
    encoded: spec_fn(Seq<char>) -> Seq<char>,
    complaint: Seq<char>,
) -> NativeResult {
    match text_at(args, 0) {
        None => failure(complaint, first_span(args)),
        Some(input) => if encode_utf8(input).len() > longest_input() {
            failure("input is too long"@, first_span(args))
        } else {
            value(ExprView::String(encoded(input)))
        },
    }
}

/// The result of a decoder on `args`: the text whose UTF-8 bytes the
/// argument writes.
pub open spec fn decode_spec(
    args: Seq<SpannedView>,
    decoded: spec_fn(Seq<char>) -> Result<Seq<u8>, Seq<char>>,
    complaint: Seq<char>,
    failed: Seq<char>,
    not_text: Seq<char>,
) -> NativeResult {
    match text_at(args, 0) {
        None => failure(complaint, first_span(args)),
        Some(input) => match decoded(input) {
            Err(e) => failure(failed + e, first_span(args)),
            Ok(bytes) => if valid_utf8(bytes) {
                value(ExprView::String(decode_utf8(bytes)))
            } else {
                failure(not_text + utf8_error_text(bytes), first_span(args))
            },
        },
    }
}

/// `encode_base64`.
pub open spec fn encode_base64_spec(args: Seq<SpannedView>) -> NativeResult {
    encode_spec(args, |s: Seq<char>| base64_text(s), "encode_base64 expects a string argument"@)
}

/// `decode_base64`.
pub open spec fn decode_base64_spec(args: Seq<SpannedView>) -> NativeResult {
    decode_spec(
        args,
        |s: Seq<char>| base64_bytes(s),
        "decode_base64 expects a string argument"@,
        "Failed to decode base64 string: "@,
        "Decoded base64 is not valid UTF-8: "@,
    )
}

/// `encode_base16`.
pub open spec fn encode_base16_spec(args: Seq<SpannedView>) -> NativeResult {
    encode_spec(args, |s: Seq<char>| base16_text(s), "encode_base16 expects a string argument"@)
}

/// `decode_base16`.
pub open spec fn decode_base16_spec(args: Seq<SpannedView>) -> NativeResult {
    decode_spec(
        args,
        |s: Seq<char>| base16_bytes(s),
        "decode_base16 expects a string argument"@,
        "Failed to decode base16 string: "@,
        "Decoded base16 is not valid UTF-8: "@,
    )
}

fn short_enough(input: &str) -> (r: bool)
    ensures
        r == (encode_utf8(input@).len() <= longest_input()),
{
    input.as_bytes().len() <= usize::MAX / 2
}

/// `encode_base64`: a text in Base64 notation.
pub fn encode_base64(args: Vec<SpannedExpr>) -> (r: Result<InternalFunctionResponse, (String, Span)>)
    ensures
        gives(r, encode_base64_spec(nodes_view(args@))),
{
    match text_argument(&args, 0) {
        None => fail("encode_base64 expects a string argument", span_of_first(&args)),
        Some(input) => if !short_enough(input.as_str()) {
            fail("input is too long", span_of_first(&args))
        } else {
            done(Expr::String(base64_encoded(input.as_str())))
        },
    }
}

/// `encode_base16`: a text in Base16 notation.
pub fn encode_base16(args: Vec<SpannedExpr>) -> (r: Result<InternalFunctionResponse, (String, Span)>)
    ensures
        gives(r, encode_base16_spec(nodes_view(args@))),
{
    match text_argument(&args, 0) {
        None => fail("encode_base16 expects a string argument", span_of_first(&args)),
        Some(input) => if !short_enough(input.as_str()) {
            fail("input is too long", span_of_first(&args))
        } else {
            done(Expr::String(base16_encoded(input.as_str())))
        },
    }
}

fn decoded_text(
    decoded: Result<Vec<u8>, String>,
    failed: &str,
    not_text: &str,
    span: Span,
) -> (r: Result<InternalFunctionResponse, (String, Span)>)
    ensures
        gives(
            r,
            match bytes_result(decoded) {
                Err(e) => failure(failed@ + e, span),
                Ok(bytes) => if valid_utf8(bytes) {
                    value(ExprView::String(decode_utf8(bytes)))
                } else {
                    failure(not_text@ + utf8_error_text(bytes), span)
                },
            },
        ),
{
    match decoded {
        Err(e) => Err((joined(failed, e.as_str()), span)),
        Ok(bytes) => match text_from_utf8(bytes) {
            Ok(text) => done(Expr::String(text)),
            Err(e) => Err((joined(not_text, e.as_str()), span)),
        },
    }
}

/// `decode_base64`: the text that Base64 notation writes.
pub fn decode_base64(args: Vec<SpannedExpr>) -> (r: Result<InternalFunctionResponse, (String, Span)>)
    ensures
        gives(r, decode_base64_spec(nodes_view(args@))),
{
    match text_argument(&args, 0) {
        None => fail("decode_base64 expects a string argument", span_of_first(&args)),
        Some(input) => decoded_text(
            base64_decoded(input.as_str()),
            "Failed to decode base64 string: ",
            "Decoded base64 is not valid UTF-8: ",
            span_of_first(&args),
        ),
    }
}

/// `decode_base16`: the text that Base16 notation writes.
pub fn decode_base16(args: Vec<SpannedExpr>) -> (r: Result<InternalFunctionResponse, (String, Span)>)
    ensures
        gives(r, decode_base16_spec(nodes_view(args@))),
{
    match text_argument(&args, 0) {
        None => fail("decode_base16 expects a string argument", span_of_first(&args)),
        Some(input) => decoded_text(
            base16_decoded(input.as_str()),
            "Failed to decode base16 string: ",
            "Decoded base16 is not valid UTF-8: ",
            span_of_first(&args),
        ),
    }
}

/// The package `encoding`.
pub fn get_object() -> (r: Expr)
    ensures
        r@ == (ExprView::Module { symbols: crate::libraries::encoding_symbols() }),
{
    crate::libraries::encoding_object()
}

} // verus!
