//! The native functions that the library runs by itself, and how the
//! evaluator reaches them.
//!
//! A native function declines a call that only the host can serve (one that
//! needs floating-point arithmetic, say) by failing with the message
//! `needs the host`. The functions without an entry here are the host's
//! altogether.

use crate::ast::{nodes_view, InternalFunctionResponse, Native, Span, SpannedExpr, SpannedView};
use crate::builtins::array::{gives, NativeResult};
use crate::builtins::{array, misc, object};
use crate::libraries::{crypto, encoding, math, time};
use crate::text::same_text;
use vstd::prelude::*;

verus! {

/// What the native function `func` returns on `args`, where the library
/// has the function.
pub open spec fn table(func: Native, args: Seq<SpannedView>) -> Option<NativeResult> {
    match func {
        Native::Str => Some(misc::str_spec(args)),
        Native::Int => Some(misc::int_spec(args)),
        Native::Float => Some(misc::float_spec(args)),
        Native::Bool => Some(misc::bool_spec(args)),
        Native::ArrayLen => Some(array::len_spec(args)),
        Native::ArrayClear => Some(array::clear_spec(args)),
        Native::ArrayPush => Some(array::push_spec(args)),
        Native::ArrayPop => Some(array::pop_spec(args)),
        Native::ObjectGet => Some(object::get_spec(args)),
        Native::ObjectSet => Some(object::set_spec(args)),
        Native::ObjectStringify => Some(object::stringify_spec(args)),
        Native::MathMul => Some(math::mul_spec(args)),
        Native::MathDiv => Some(math::div_spec(args)),
        Native::MathAbs => Some(math::abs_spec(args)),
        Native::MathPow => Some(math::pow_spec(args)),
        Native::Sha256 => Some(crypto::sha256_spec(args)),
        Native::Sha512 => Some(crypto::sha512_spec(args)),
        Native::Blake3 => Some(crypto::blake3_spec(args)),
        Native::Md5 => Some(crypto::md5_spec(args)),
        Native::BcryptVerify => Some(crypto::bcrypt_verify_spec(args)),
        Native::Argon2Verify => Some(crypto::argon2_verify_spec(args)),
        Native::ScryptVerify => Some(crypto::scrypt_verify_spec(args)),
        Native::EncodeBase64 => Some(encoding::encode_base64_spec(args)),
        Native::DecodeBase64 => Some(encoding::decode_base64_spec(args)),
        Native::EncodeBase16 => Some(encoding::encode_base16_spec(args)),
        Native::DecodeBase16 => Some(encoding::decode_base16_spec(args)),
        Native::ToUtcDateTime => Some(time::to_utc_date_time_spec(args)),
        _ => None,
    }
}

/// Whether a result says that only the host can serve the call.
pub open spec fn declines(r: NativeResult) -> bool {
    r matches Err((text, _)) && text == "needs the host"@
}

/// What the library itself returns for the call of `func` on `args`;
/// `None` where the call is the host's.
pub open spec fn pure_call(func: Native, args: Seq<SpannedView>) -> Option<NativeResult> {
    match table(func, args) {
        Some(r) => if declines(r) {
            None
        } else {
            Some(r)
        },
        None => None,
    }
}

fn lookup_table(func: Native, args: Vec<SpannedExpr>) -> (r: Option<
    Result<InternalFunctionResponse, (String, Span)>,
>)
    ensures
        match r {
            Some(x) => table(func, nodes_view(args@)) matches Some(s) && gives(x, s),
            None => table(func, nodes_view(args@)) is None,
        },
{
    match func {
        Native::Str => Some(misc::str(args)),
        Native::Int => Some(misc::integer(args)),
        Native::Float => Some(misc::float(args)),
        Native::Bool => Some(misc::bool(args)),
        Native::ArrayLen => Some(array::len(args)),
        Native::ArrayClear => Some(array::clear(args)),
        Native::ArrayPush => Some(array::push(args)),
        Native::ArrayPop => Some(array::pop(args)),
        Native::ObjectGet => Some(object::get(args)),
        Native::ObjectSet => Some(object::set(args)),
        Native::ObjectStringify => Some(object::stringify(args)),
        Native::MathMul => Some(crate::libraries::math::mul(args)),
        Native::MathDiv => Some(math::div(args)),
        Native::MathAbs => Some(math::abs(args)),
        Native::MathPow => Some(math::pow(args)),
        Native::Sha256 => Some(crypto::sha256(args)),
        Native::Sha512 => Some(crypto::sha512(args)),
        Native::Blake3 => Some(crypto::blake3(args)),
        Native::Md5 => Some(crypto::md5(args)),
        Native::BcryptVerify => Some(crypto::bcrypt_verify(args)),
        Native::Argon2Verify => Some(crypto::argon2_verify(args)),
        Native::ScryptVerify => Some(crypto::scrypt_verify(args)),
        Native::EncodeBase64 => Some(encoding::encode_base64(args)),
        Native::DecodeBase64 => Some(encoding::decode_base64(args)),
        Native::EncodeBase16 => Some(encoding::encode_base16(args)),
        Native::DecodeBase16 => Some(encoding::decode_base16(args)),
        Native::ToUtcDateTime => Some(time::to_utc_date_time(args)),
        _ => None,
    }
}

/// Runs the native function `func` on `args`, where the library can.
pub fn call_native(func: Native, args: Vec<SpannedExpr>) -> (r: Option<
    Result<InternalFunctionResponse, (String, Span)>,
>)
    ensures
        match r {
            Some(x) => pure_call(func, nodes_view(args@)) matches Some(s) && gives(x, s),
            None => pure_call(func, nodes_view(args@)) is None,
        },
{
    match lookup_table(func, args) {
        Some(Err((text, span))) => {
            if same_text(text.as_str(), "needs the host") {
                None
            } else {
                Some(Err((text, span)))
            }
        },
        Some(Ok(response)) => Some(Ok(response)),
        None => None,
    }
}

/// Runs one of the native functions whose results are not functions of
/// their arguments: the random password hashes, the clock, and the
/// timestamps written in the machine's time zone. The evaluator leaves these
/// to the host, which serves them here. `None` for any other function.
pub fn serve(func: Native, args: Vec<SpannedExpr>) -> (r: Option<
    Result<InternalFunctionResponse, (String, Span)>,
>)
    ensures
        match func {
            Native::BcryptHash => r matches Some(x) && crypto::bcrypt_hash_gives(nodes_view(args@), x),
            Native::Argon2Hash => r matches Some(x) && crypto::argon2_hash_gives(nodes_view(args@), x),
            Native::ScryptHash => r matches Some(x) && crypto::scrypt_hash_gives(nodes_view(args@), x),
            Native::NowUnix => r matches Some(x) && time::now_unix_gives(x),
            Native::NowUtc => r matches Some(x) && time::now_utc_gives(x),
            Native::NowLocal => r matches Some(x) && time::now_local_gives(x),
            Native::ToIso8601 => r matches Some(x) && time::local_gives(
                nodes_view(args@),
                "to_iso_8601"@,
                x,
            ),
            Native::ToRfc2822 => r matches Some(x) && time::local_gives(
                nodes_view(args@),
                "to_rfc_2822"@,
                x,
            ),
            Native::ToLocalDateTime => r matches Some(x) && time::local_gives(
                nodes_view(args@),
                "to_local_date_time"@,
                x,
            ),
            _ => r is None,
        },
{
    match func {
        Native::BcryptHash => Some(crypto::bcrypt_hash(args)),
        Native::Argon2Hash => Some(crypto::argon2_hash(args)),
        Native::ScryptHash => Some(crypto::scrypt_hash(args)),
        Native::NowUnix => Some(time::now_unix(args)),
        Native::NowUtc => Some(time::now_utc(args)),
        Native::NowLocal => Some(time::now_local(args)),
        Native::ToIso8601 => Some(time::to_iso_8601(args)),
        Native::ToRfc2822 => Some(time::to_rfc_2822(args)),
        Native::ToLocalDateTime => Some(time::to_local_date_time(args)),
        _ => None,
    }
}

} // verus!
