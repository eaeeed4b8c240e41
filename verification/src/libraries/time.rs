//! The package `time`: the clock, and timestamps written out.
//!
//! A timestamp counts the seconds since the start of 1970 in universal
//! time. What depends on the clock or on the machine's time zone is not a
//! function of the arguments: of such a result the contracts say only what
//! holds whatever came back.

use crate::ast::{nodes_view, Expr, ExprView, InternalFunctionResponse, Span, SpannedExpr, SpannedView};
use crate::builtins::array::{done, fail, failure, first_span, gives, span_of_first, value, NativeResult};
use crate::text::joined;
use vstd::prelude::*;

verus! {

/// A timestamp as universal time in the notation `%c` of the crate
/// `chrono` (such as `Thu Jan  1 00:00:00 1970`), or `None` where the
/// crate cannot hold the time.
pub uninterp spec fn utc_date_text(seconds: i64) -> Option<Seq<char>>;

/// The last timestamp that the functions of this package write in local
/// time: the end of the year 9998 in universal time, so that the year has
/// four digits in every time zone.
pub open spec fn last_timestamp() -> int {
    253_370_764_799
}

/// Trusted: `std::time::SystemTime::now` and `duration_since` the epoch,
/// in whole seconds; the error's message where the clock stands before the
/// epoch. Nothing is claimed of the result: it depends on the clock.
#[verifier::external_body]
fn clock_seconds() -> (r: Result<u64, String>) {
    std::time::SystemTime::now().duration_since(std::time::UNIX_EPOCH).map(|d| d.as_secs()).map_err(
        |e| e.to_string(),
    )
}

/// Trusted: `chrono::DateTime::from_timestamp`, which gives `None` where
/// the time is out of the crate's range, written in the notation `%c`. The
/// result is a function of the timestamp alone.
#[verifier::external_body]
fn utc_text(seconds: i64) -> (r: Option<String>)
    ensures
        match r {
            Some(s) => utc_date_text(seconds) == Some(s@),
            None => utc_date_text(seconds) is None,
        },
{
    chrono::DateTime::from_timestamp(seconds, 0).map(|d| format!("{}", d.format("%c")))
}

/// Trusted: `TimeZone::timestamp_opt` of `chrono::Local`, written in the
/// notation `%c` where the time zone has exactly one such time. The bounds
/// keep the time within the years that the crate holds in any time zone.
/// Nothing is claimed of the result: it depends on the time zone.
#[verifier::external_body]
fn local_text(seconds: i64) -> (r: Option<String>)
    requires
        0 <= seconds <= last_timestamp(),
{
    chrono::TimeZone::timestamp_opt(&chrono::Local, seconds, 0).single().map(
        |d| format!("{}", d.format("%c")),
    )
}

/// Trusted: `TimeZone::timestamp_opt` of `chrono::Local` and the time's
/// `to_rfc3339`. The bounds keep the time within the years that the crate
/// holds in any time zone. Nothing is claimed of the result: it depends on
/// the time zone.
#[verifier::external_body]
fn local_rfc3339(seconds: i64) -> (r: Option<String>)
    requires
        0 <= seconds <= last_timestamp(),
{
    chrono::TimeZone::timestamp_opt(&chrono::Local, seconds, 0).single().map(|d| d.to_rfc3339())
}

/// Trusted: `TimeZone::timestamp_opt` of `chrono::Local` and the time's
/// `to_rfc2822`, which panics on a year of more than four digits or a
/// negative one; the bounds exclude both, whatever the time zone. Nothing
/// is claimed of the result: it depends on the time zone.
#[verifier::external_body]
fn local_rfc2822(seconds: i64) -> (r: Option<String>)
    requires
        0 <= seconds <= last_timestamp(),
{
    chrono::TimeZone::timestamp_opt(&chrono::Local, seconds, 0).single().map(|d| d.to_rfc2822())
}

/// The model of a text that may be missing.
pub open spec fn text_view(text: Option<String>) -> Option<Seq<char>> {
    match text {
        Some(t) => Some(t@),
        None => None,
    }
}

/// The model of what the clock gave.
pub open spec fn seconds_view(seconds: Result<u64, String>) -> Result<u64, Seq<char>> {
    match seconds {
        Ok(n) => Ok(n),
        Err(e) => Err(e@),
    }
}

/// The timestamp that `args` hold: an integer from zero up to `last`.
/// Otherwise the failure that the function called `who` reports.
pub open spec fn timestamp_of(args: Seq<SpannedView>, who: Seq<char>, last: i64) -> Result<
    i64,
    (Seq<char>, Span),
> {
    if args.len() > 0 && args[0].node is Int {
        let n = args[0].node->Int_0;
        if 0 <= n <= last {
            Ok(n)
        } else {
            Err(("timestamp out of range"@, args[0].span))
        }
    } else {
        Err((who + " expects an integer unix timestamp"@, first_span(args)))
    }
}

fn timestamp(args: &Vec<SpannedExpr>, who: &str, last: i64) -> (r: Result<i64, (String, Span)>)
    ensures
        match r {
            Ok(n) => timestamp_of(nodes_view(args@), who@, last) == Ok::<i64, (Seq<char>, Span)>(n),
            Err(e) => timestamp_of(nodes_view(args@), who@, last) == Err::<i64, (Seq<char>, Span)>(
                (e.0@, e.1),
            ),
        },
{
    if args.len() > 0 {
        assert(nodes_view(args@)[0] == args@[0]@);
        match &args[0].node {
            Expr::Int(n) => {
                if 0 <= *n && *n <= last {
                    return Ok(*n);
                }
                return Err((String::from_str("timestamp out of range"), args[0].span));
            },
            _ => {},
        }
    }
    Err((joined(who, " expects an integer unix timestamp"), span_of_first(args)))
}

/// What a function of this package returns for the text that the crate
/// gave: the text, or the failure that the time cannot be written.
pub open spec fn written(text: Option<Seq<char>>, span: Span) -> NativeResult {
    match text {
        Some(t) => value(ExprView::String(t)),
        None => failure("timestamp out of range"@, span),
    }
}

/// What a function of this package returns for the text that the crate
/// gave.
pub fn respond_text(text: Option<String>, span: Span) -> (r: Result<
    InternalFunctionResponse,
    (String, Span),
>)
    ensures
        gives(
            r,
            written(text_view(text), span),
        ),
{
    match text {
        Some(t) => done(Expr::String(t)),
        None => fail("timestamp out of range", span),
    }
}

/// What `now_unix` returns for what the clock gave: the seconds as an
/// integer, or the failure that the clock stands before 1970.
pub open spec fn clock_response(seconds: Result<u64, Seq<char>>) -> NativeResult {
    match seconds {
        Ok(n) => value(ExprView::Int(n as i64)),
        Err(e) => failure("System time error: "@ + e, Span { start: 0, end: 0 }),
    }
}

/// What `now_unix` returns for what the clock gave.
pub fn respond_clock(seconds: Result<u64, String>) -> (r: Result<
    InternalFunctionResponse,
    (String, Span),
>)
    ensures
        gives(
            r,
            clock_response(seconds_view(seconds)),
        ),
{
    match seconds {
        Ok(n) => done(Expr::Int(n as i64)),
        Err(e) => Err((joined("System time error: ", e.as_str()), Span { start: 0, end: 0 })),
    }
}

/// What holds of every result of `now_unix`: it is what `clock_response`
/// makes of some reading of the clock.
pub open spec fn now_unix_gives(r: Result<InternalFunctionResponse, (String, Span)>) -> bool {
    exists|seconds: Result<u64, Seq<char>>| gives(r, clock_response(seconds))
}

/// What `now_utc` returns for what the clock gave: the time written as
/// universal time, or the failure that the clock stands before 1970 or
/// after the last timestamp.
pub open spec fn utc_clock_response(seconds: Result<u64, Seq<char>>) -> NativeResult {
    match seconds {
        Ok(n) => if n <= last_timestamp() {
            written(utc_date_text(n as i64), Span { start: 0, end: 0 })
        } else {
            failure("timestamp out of range"@, Span { start: 0, end: 0 })
        },
        Err(e) => failure("System time error: "@ + e, Span { start: 0, end: 0 }),
    }
}

/// What holds of every result of `now_utc`: it is what `utc_clock_response`
/// makes of some reading of the clock.
pub open spec fn now_utc_gives(r: Result<InternalFunctionResponse, (String, Span)>) -> bool {
    exists|seconds: Result<u64, Seq<char>>| gives(r, utc_clock_response(seconds))
}

/// What `now_local` returns for what the clock gave and the text that the
/// crate made of it: the text, or one of the failures of `now_utc`.
pub open spec fn local_clock_response(
    seconds: Result<u64, Seq<char>>,
    text: Option<Seq<char>>,
) -> NativeResult {
    match seconds {
        Ok(n) => if n <= last_timestamp() {
            written(text, Span { start: 0, end: 0 })
        } else {
            failure("timestamp out of range"@, Span { start: 0, end: 0 })
        },
        Err(e) => failure("System time error: "@ + e, Span { start: 0, end: 0 }),
    }
}

/// What holds of every result of `now_local`: it is what
/// `local_clock_response` makes of some reading of the clock and some text.
pub open spec fn now_local_gives(r: Result<InternalFunctionResponse, (String, Span)>) -> bool {
    exists|seconds: Result<u64, Seq<char>>, text: Option<Seq<char>>|
        gives(r, local_clock_response(seconds, text))
}

/// What holds of every result of the functions that write a timestamp in
/// the machine's time zone: on a timestamp in range it is what `written`
/// makes of some text, else the failure that `timestamp_of` gives.
pub open spec fn local_gives(
    args: Seq<SpannedView>,
    who: Seq<char>,
    r: Result<InternalFunctionResponse, (String, Span)>,
) -> bool {
    match timestamp_of(args, who, last_timestamp() as i64) {
        Err(e) => gives(r, Err(e)),
        Ok(n) => exists|text: Option<Seq<char>>| gives(r, written(text, first_span(args))),
    }
}

/// `now_unix`: the clock's time as a timestamp.
pub fn now_unix(args: Vec<SpannedExpr>) -> (r: Result<InternalFunctionResponse, (String, Span)>)
    ensures
        now_unix_gives(r),
{
    let seconds = clock_seconds();
    let ghost s = seconds_view(seconds);
    let r = respond_clock(seconds);
    assert(gives(r, clock_response(s)));
    r
}

/// `now_utc`: the clock's time written as universal time.
pub fn now_utc(args: Vec<SpannedExpr>) -> (r: Result<InternalFunctionResponse, (String, Span)>)
    ensures
        now_utc_gives(r),
{
    let seconds = clock_seconds();
    let ghost s = seconds_view(seconds);
    let nowhere = Span { start: 0, end: 0 };
    let r = match seconds {
        Ok(n) => if n <= 253_370_764_799 {
            respond_text(utc_text(n as i64), nowhere)
        } else {
            fail("timestamp out of range", nowhere)
        },
        Err(e) => Err((joined("System time error: ", e.as_str()), nowhere)),
    };
    assert(gives(r, utc_clock_response(s)));
    r
}

/// `now_local`: the clock's time written as local time.
pub fn now_local(args: Vec<SpannedExpr>) -> (r: Result<InternalFunctionResponse, (String, Span)>)
    ensures
        now_local_gives(r),
{
    let seconds = clock_seconds();
    let ghost s = seconds_view(seconds);
    let nowhere = Span { start: 0, end: 0 };
    match seconds {
        Ok(n) => if n <= 253_370_764_799 {
            let text = local_text(n as i64);
            let ghost t = text_view(text);
            let r = respond_text(text, nowhere);
            assert(gives(r, local_clock_response(s, t)));
            r
        } else {
            let r = fail("timestamp out of range", nowhere);
            assert(gives(r, local_clock_response(s, None)));
            r
        },
        Err(e) => {
            let r = Err((joined("System time error: ", e.as_str()), nowhere));
            assert(gives(r, local_clock_response(s, None)));
            r
        },
    }
}

/// `to_utc_date_time`: a timestamp, which may not be negative, written as
/// universal time.
pub open spec fn to_utc_date_time_spec(args: Seq<SpannedView>) -> NativeResult {
    match timestamp_of(args, "to_utc_date_time"@, i64::MAX) {
        Err(e) => Err(e),
        Ok(n) => written(utc_date_text(n), first_span(args)),
    }
}

/// `to_utc_date_time`: a timestamp written as universal time.
pub fn to_utc_date_time(args: Vec<SpannedExpr>) -> (r: Result<
    InternalFunctionResponse,
    (String, Span),
>)
    ensures
        gives(r, to_utc_date_time_spec(nodes_view(args@))),
{
    match timestamp(&args, "to_utc_date_time", i64::MAX) {
        Err(e) => Err(e),
        Ok(n) => respond_text(utc_text(n), span_of_first(&args)),
    }
}

/// `to_local_date_time`: a timestamp written as local time. On a timestamp
/// in range the result is what `respond_text` makes of the text.
pub fn to_local_date_time(args: Vec<SpannedExpr>) -> (r: Result<
    InternalFunctionResponse,
    (String, Span),
>)
    ensures
        local_gives(nodes_view(args@), "to_local_date_time"@, r),
{
    match timestamp(&args, "to_local_date_time", 253_370_764_799) {
        Err(e) => Err(e),
        Ok(n) => {
            let text = local_text(n);
            let ghost t = text_view(text);
            let r = respond_text(text, span_of_first(&args));
            assert(gives(r, written(t, first_span(nodes_view(args@)))));
            r
        },
    }
}

/// `to_iso_8601`: a timestamp written as local time in the notation of
/// RFC 3339.
pub fn to_iso_8601(args: Vec<SpannedExpr>) -> (r: Result<InternalFunctionResponse, (String, Span)>)
    ensures
        local_gives(nodes_view(args@), "to_iso_8601"@, r),
{
    match timestamp(&args, "to_iso_8601", 253_370_764_799) {
        Err(e) => Err(e),
        Ok(n) => {
            let text = local_rfc3339(n);
            let ghost t = text_view(text);
            let r = respond_text(text, span_of_first(&args));
            assert(gives(r, written(t, first_span(nodes_view(args@)))));
            r
        },
    }
}

/// `to_rfc_2822`: a timestamp written as local time in the notation of
/// RFC 2822.
pub fn to_rfc_2822(args: Vec<SpannedExpr>) -> (r: Result<InternalFunctionResponse, (String, Span)>)
    ensures
        local_gives(nodes_view(args@), "to_rfc_2822"@, r),
{
    match timestamp(&args, "to_rfc_2822", 253_370_764_799) {
        Err(e) => Err(e),
        Ok(n) => {
            let text = local_rfc2822(n);
            let ghost t = text_view(text);
            let r = respond_text(text, span_of_first(&args));
            assert(gives(r, written(t, first_span(nodes_view(args@)))));
            r
        },
    }
}

/// The package `time`.
pub fn get_object() -> (r: Expr)
    ensures
        r@ == (ExprView::Module { symbols: crate::libraries::time_symbols() }),
{
    crate::libraries::time_object()
}

} // verus!
