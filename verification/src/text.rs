//! Small text utilities shared by the tokenizer, the evaluator and the
//! built-in functions. Text is modelled as `Seq<char>`.

use vstd::prelude::*;
use vstd::std_specs::iter::IteratorSpec;

verus! {

/// Appends one character to a string.
///
/// Trusted: wraps `String::push`, which appends exactly the given character.
#[verifier::external_body]
pub(crate) fn push_char(s: &mut String, c: char)
    ensures
        final(s)@ == old(s)@.push(c),
{
    s.push(c)
}

/// The characters of `s`, in order.
pub fn chars_of(s: &str) -> (r: Vec<char>)
    ensures
        r@ == s@,
{
    broadcast use vstd::string::group_string_axioms;

    let mut out: Vec<char> = Vec::new();
    let mut it = s.chars();
    assert(out@ + it.remaining() =~= s@);
    loop
        invariant
            out@ + it.remaining() == s@,
            it.obeys_prophetic_iter_laws(),
            it.decrease() is Some,
        decreases it.decrease()->0,
    {
        let ghost before = it.remaining();
        match it.next() {
            Some(c) => {
                out.push(c);
                assert(out@ + it.remaining() =~= s@);
            },
            None => {
                assert(out@ + before =~= out@);
                return out;
            },
        }
    }
}

/// The text made of `chars[from..to]`.
pub fn text_of(chars: &Vec<char>, from: usize, to: usize) -> (r: String)
    requires
        from <= to <= chars.len(),
    ensures
        r@ == chars@.subrange(from as int, to as int),
{
    let mut out = String::new();
    let mut i: usize = from;
    while i < to
        invariant
            from <= i <= to <= chars.len(),
            out@ == chars@.subrange(from as int, i as int),
        decreases to - i,
    {
        push_char(&mut out, chars[i]);
        assert(out@ =~= chars@.subrange(from as int, i + 1));
        i += 1;
    }
    out
}

/// Whether two texts hold the same characters.
pub fn same_text(a: &str, b: &str) -> (r: bool)
    ensures
        r == (a@ == b@),
{
    let x = a.as_bytes();
    let y = b.as_bytes();
    proof {
        vstd::utf8::encode_utf8_decode_utf8(a@);
        vstd::utf8::encode_utf8_decode_utf8(b@);
    }
    if x.len() != y.len() {
        return false;
    }
    let mut i: usize = 0;
    while i < x.len()
        invariant
            x@.len() == y@.len(),
            x@ == vstd::utf8::encode_utf8(a@),
            y@ == vstd::utf8::encode_utf8(b@),
            i <= x@.len(),
            x@.subrange(0, i as int) == y@.subrange(0, i as int),
        decreases x.len() - i,
    {
        if x[i] != y[i] {
            assert(x@[i as int] != y@[i as int]);
            return false;
        }
        assert(x@.subrange(0, i + 1) =~= x@.subrange(0, i as int).push(x@[i as int]));
        assert(y@.subrange(0, i + 1) =~= y@.subrange(0, i as int).push(y@[i as int]));
        i += 1;
    }
    assert(x@ =~= x@.subrange(0, x@.len() as int));
    assert(y@ =~= y@.subrange(0, y@.len() as int));
    true
}

/// The character that writes the decimal digit `d`.
pub open spec fn digit_char(d: nat) -> char {
    if d == 0 {
        '0'
    } else if d == 1 {
        '1'
    } else if d == 2 {
        '2'
    } else if d == 3 {
        '3'
    } else if d == 4 {
        '4'
    } else if d == 5 {
        '5'
    } else if d == 6 {
        '6'
    } else if d == 7 {
        '7'
    } else if d == 8 {
        '8'
    } else {
        '9'
    }
}

/// Decimal notation of a natural number, without leading zeros.
pub open spec fn digits_text(n: nat) -> Seq<char>
    decreases n,
{
    if n < 10 {
        seq![digit_char(n)]
    } else {
        digits_text(n / 10).push(digit_char(n % 10))
    }
}

/// Decimal notation of an integer, with a leading `-` when negative.
pub open spec fn int_text(n: int) -> Seq<char> {
    if n < 0 {
        seq!['-'] + digits_text((-n) as nat)
    } else {
        digits_text(n as nat)
    }
}

fn digit_of(d: u64) -> (c: char)
    requires
        d < 10,
    ensures
        c == digit_char(d as nat),
{
    if d == 0 {
        '0'
    } else if d == 1 {
        '1'
    } else if d == 2 {
        '2'
    } else if d == 3 {
        '3'
    } else if d == 4 {
        '4'
    } else if d == 5 {
        '5'
    } else if d == 6 {
        '6'
    } else if d == 7 {
        '7'
    } else if d == 8 {
        '8'
    } else {
        '9'
    }
}

fn push_digits(s: &mut String, n: u64)
    ensures
        final(s)@ == old(s)@ + digits_text(n as nat),
    decreases n,
{
    if n < 10 {
        push_char(s, digit_of(n));
        assert(s@ =~= old(s)@ + digits_text(n as nat));
    } else {
        push_digits(s, n / 10);
        push_char(s, digit_of(n % 10));
        assert(s@ =~= old(s)@ + digits_text(n as nat));
    }
}

/// Appends the decimal notation of the natural number `n` to `s`.
pub fn push_nat(s: &mut String, n: u64)
    ensures
        final(s)@ == old(s)@ + int_text(n as int),
{
    push_digits(s, n);
}

/// Appends the decimal notation of `n` to `s`.
pub fn push_int(s: &mut String, n: i64)
    ensures
        final(s)@ == old(s)@ + int_text(n as int),
{
    if n < 0 {
        push_char(s, '-');
        let magnitude: u64 = if n == i64::MIN {
            9223372036854775808u64
        } else {
            (-n) as u64
        };
        push_digits(s, magnitude);
        assert(s@ =~= old(s)@ + int_text(n as int));
    } else {
        push_digits(s, n as u64);
    }
}

/// Decimal notation of `n`.
pub fn int_to_text(n: i64) -> (r: String)
    ensures
        r@ == int_text(n as int),
{
    let mut s = String::new();
    push_int(&mut s, n);
    assert(s@ =~= int_text(n as int));
    s
}

/// Appends a text to a string.
pub fn push_text(s: &mut String, t: &str)
    ensures
        final(s)@ == old(s)@ + t@,
{
    s.append(t);
}

/// Whether `c` is a decimal digit.
pub open spec fn is_digit(c: char) -> bool {
    '0' <= c <= '9'
}

/// The value of the decimal digit `c`.
pub open spec fn digit_value(c: char) -> int {
    c as int - '0' as int
}

/// Whether `c` is a decimal digit.
pub fn digit_check(c: char) -> (r: bool)
    ensures
        r == is_digit(c),
{
    '0' <= c && c <= '9'
}

/// The value of the decimal digit `c`.
pub fn digit_number(c: char) -> (r: u8)
    requires
        is_digit(c),
    ensures
        r as int == digit_value(c),
{
    ((c as u32) - ('0' as u32)) as u8
}

/// Why a text is not the decimal notation of a 64-bit integer.
#[derive(Clone, Copy, Debug, PartialEq, Eq, Structural)]
pub enum IntError {
    Empty,
    InvalidDigit,
    PosOverflow,
    NegOverflow,
}

/// The number that `s[i..]` continues after the digits read so far gave
/// `acc`: each digit is taken in turn, and the first character that is no
/// digit, or the first digit that leaves the range, ends the reading.
pub open spec fn read_digits(s: Seq<char>, i: int, acc: int, negative: bool) -> Result<
    i64,
    IntError,
>
    decreases s.len() - i,
{
    if i < 0 || i >= s.len() {
        Ok(acc as i64)
    } else if !is_digit(s[i]) {
        Err(IntError::InvalidDigit)
    } else if negative {
        let next = acc * 10 - digit_value(s[i]);
        if next < i64::MIN {
            Err(IntError::NegOverflow)
        } else {
            read_digits(s, i + 1, next, negative)
        }
    } else {
        let next = acc * 10 + digit_value(s[i]);
        if next > i64::MAX {
            Err(IntError::PosOverflow)
        } else {
            read_digits(s, i + 1, next, negative)
        }
    }
}

/// The 64-bit integer that `s` writes: an optional sign and at least one
/// decimal digit, nothing else.
pub open spec fn read_int(s: Seq<char>) -> Result<i64, IntError> {
    if s.len() == 0 {
        Err(IntError::Empty)
    } else if s[0] == '-' || s[0] == '+' {
        if s.len() == 1 {
            Err(IntError::InvalidDigit)
        } else {
            read_digits(s, 1, 0, s[0] == '-')
        }
    } else {
        read_digits(s, 0, 0, false)
    }
}

/// Reads a 64-bit integer.
pub fn parse_int(text: &str) -> (r: Result<i64, IntError>)
    ensures
        r == read_int(text@),
{
    let cs = chars_of(text);
    if cs.len() == 0 {
        return Err(IntError::Empty);
    }
    let negative = cs[0] == '-';
    let mut i: usize = 0;
    if cs[0] == '-' || cs[0] == '+' {
        if cs.len() == 1 {
            return Err(IntError::InvalidDigit);
        }
        i = 1;
    }
    let mut acc: i64 = 0;
    while i < cs.len()
        invariant
            i <= cs.len(),
            cs@ == text@,
            negative ==> acc <= 0,
            !negative ==> acc >= 0,
            read_int(text@) == read_digits(cs@, i as int, acc as int, negative),
        decreases cs.len() - i,
    {
        let c = cs[i];
        if !digit_check(c) {
            return Err(IntError::InvalidDigit);
        }
        let d: i64 = digit_number(c) as i64;
        if negative {
            if acc < (i64::MIN + d) / 10 {
                assert(acc * 10 - d < i64::MIN);
                return Err(IntError::NegOverflow);
            }
            assert(acc * 10 - d >= i64::MIN);
            acc = acc * 10 - d;
        } else {
            if acc > (i64::MAX - d) / 10 {
                return Err(IntError::PosOverflow);
            }
            acc = acc * 10 + d;
        }
        i += 1;
    }
    Ok(acc)
}

/// The message of an integer reading error.
pub open spec fn int_error_text(e: IntError) -> Seq<char> {
    match e {
        IntError::Empty => "cannot parse integer from empty string"@,
        IntError::InvalidDigit => "invalid digit found in string"@,
        IntError::PosOverflow => "number too large to fit in target type"@,
        IntError::NegOverflow => "number too small to fit in target type"@,
    }
}

/// The message of an integer reading error.
pub fn int_error_message(e: IntError) -> (r: &'static str)
    ensures
        r@ == int_error_text(e),
{
    match e {
        IntError::Empty => "cannot parse integer from empty string",
        IntError::InvalidDigit => "invalid digit found in string",
        IntError::PosOverflow => "number too large to fit in target type",
        IntError::NegOverflow => "number too small to fit in target type",
    }
}

/// Whether `text` ends with `suffix`.
pub open spec fn ends_with(text: Seq<char>, suffix: Seq<char>) -> bool {
    text.len() >= suffix.len() && text.subrange(text.len() - suffix.len(), text.len() as int)
        == suffix
}

/// Whether `text` ends with `suffix`.
pub fn has_suffix(text: &str, suffix: &str) -> (r: bool)
    ensures
        r == ends_with(text@, suffix@),
{
    let t = chars_of(text);
    let s = chars_of(suffix);
    if t.len() < s.len() {
        return false;
    }
    let offset = t.len() - s.len();
    let mut i: usize = 0;
    while i < s.len()
        invariant
            i <= s.len(),
            offset + s.len() == t.len(),
            t@ == text@,
            s@ == suffix@,
            forall|j: int| 0 <= j < i ==> t@[offset + j] == s@[j],
        decreases s.len() - i,
    {
        if t[offset + i] != s[i] {
            assert(t@.subrange(offset as int, t@.len() as int)[i as int] != s@[i as int]);
            return false;
        }
        i += 1;
    }
    assert(t@.subrange(offset as int, t@.len() as int) =~= s@);
    true
}

/// `text` without its last `n` characters.
pub fn without_last(text: &str, n: usize) -> (r: String)
    requires
        n <= text@.len(),
    ensures
        r@ == text@.subrange(0, text@.len() - n),
{
    let t = chars_of(text);
    text_of(&t, 0, t.len() - n)
}

/// The position after the last `/` of `path`, or zero.
pub open spec fn directory_end(path: Seq<char>, i: int) -> int
    decreases i,
{
    if i <= 0 || i > path.len() {
        0
    } else if path[i - 1] == '/' {
        i
    } else {
        directory_end(path, i - 1)
    }
}

/// The directory part of a path: everything up to and including the last
/// `/`, or nothing where the path has none.
pub open spec fn directory_of(path: Seq<char>) -> Seq<char> {
    path.subrange(0, directory_end(path, path.len() as int))
}

proof fn directory_end_bounds(path: Seq<char>, i: int)
    requires
        0 <= i <= path.len(),
    ensures
        0 <= directory_end(path, i) <= i,
    decreases i,
{
    if i > 0 && path[i - 1] != '/' {
        directory_end_bounds(path, i - 1);
    }
}

/// The directory part of a path.
pub fn directory(path: &str) -> (r: String)
    ensures
        r@ == directory_of(path@),
{
    let cs = chars_of(path);
    let mut i: usize = cs.len();
    while i > 0 && cs[i - 1] != '/'
        invariant
            i <= cs.len(),
            directory_end(cs@, cs@.len() as int) == directory_end(cs@, i as int),
        decreases i,
    {
        i -= 1;
    }
    text_of(&cs, 0, i)
}

/// Two texts, one after the other.
pub fn joined(a: &str, b: &str) -> (r: String)
    ensures
        r@ == a@ + b@,
{
    let mut s = String::from_str(a);
    push_text(&mut s, b);
    s
}

} // verus!
