//! The package `os`: commands of the operating system. The host runs the
//! command; what goes to it and what comes back is prepared here.

use crate::ast::{nodes_view, Expr, ExprView, InternalFunctionResponse, Span, SpannedExpr, SpannedView};
use crate::builtins::array::{done, failure, first_span, gives, span_of_first, value, NativeResult};
use crate::libraries::crypto::{text_argument, text_at};
use crate::text::{chars_of, joined, text_of};
use vstd::prelude::*;

verus! {

/// The classes of characters that are trimmed from the ends of a text.
#[derive(Clone, Copy, Debug, PartialEq, Eq, Structural)]
pub enum Trim {
    /// White space, as Unicode defines it.
    Space,
    /// The double quote.
    DoubleQuote,
    /// The single quote.
    SingleQuote,
}

/// Whether `c` is white space: a character with the Unicode property
/// `White_Space`.
pub open spec fn is_white_space(c: char) -> bool {
    let v = c as u32;
    (0x09 <= v <= 0x0D) || v == 0x20 || v == 0x85 || v == 0xA0 || v == 0x1680 || (0x2000 <= v
        <= 0x200A) || v == 0x2028 || v == 0x2029 || v == 0x202F || v == 0x205F || v == 0x3000
}

/// Whether `c` is of the class `class`.
pub open spec fn trims(class: Trim, c: char) -> bool {
    match class {
        Trim::Space => is_white_space(c),
        Trim::DoubleQuote => c == '"',
        Trim::SingleQuote => c == '\'',
    }
}

/// The first position at or after `i` whose character is not of the class,
/// or the length.
pub open spec fn lead(s: Seq<char>, i: int, class: Trim) -> int
    decreases s.len() - i,
{
    if 0 <= i < s.len() && trims(class, s[i]) {
        lead(s, i + 1, class)
    } else {
        i
    }
}

/// The least position down from `j`, not below `low`, after which all
/// characters up to `j` are of the class.
pub open spec fn trail(s: Seq<char>, low: int, j: int, class: Trim) -> int
    decreases j - low,
{
    if low < j <= s.len() && trims(class, s[j - 1]) {
        trail(s, low, j - 1, class)
    } else {
        j
    }
}

/// `s` without the characters of the class at its two ends.
pub open spec fn trimmed(s: Seq<char>, class: Trim) -> Seq<char> {
    let from = lead(s, 0, class);
    if from >= s.len() {
        Seq::empty()
    } else {
        s.subrange(from, trail(s, from, s.len() as int, class))
    }
}

/// `s` without the characters of the class at its end.
pub open spec fn trimmed_end(s: Seq<char>, class: Trim) -> Seq<char> {
    s.subrange(0, trail(s, 0, s.len() as int, class))
}

/// A command as it is handed to the shell: without white space at its ends,
/// then without double quotes, then without single quotes.
pub open spec fn cleaned(cmd: Seq<char>) -> Seq<char> {
    trimmed(trimmed(trimmed(cmd, Trim::Space), Trim::DoubleQuote), Trim::SingleQuote)
}

fn trims_check(class: Trim, c: char) -> (r: bool)
    ensures
        r == trims(class, c),
{
    match class {
        Trim::Space => {
            let v = c as u32;
            (0x09 <= v && v <= 0x0D) || v == 0x20 || v == 0x85 || v == 0xA0 || v == 0x1680 || (
            0x2000 <= v && v <= 0x200A) || v == 0x2028 || v == 0x2029 || v == 0x202F || v == 0x205F
                || v == 0x3000
        },
        Trim::DoubleQuote => c == '"',
        Trim::SingleQuote => c == '\'',
    }
}

fn trail_of(cs: &Vec<char>, low: usize, class: Trim) -> (r: usize)
    requires
        low <= cs.len(),
    ensures
        r == trail(cs@, low as int, cs@.len() as int, class),
        low <= r <= cs.len(),
{
    let mut j: usize = cs.len();
    while j > low && trims_check(class, cs[j - 1])
        invariant
            low <= j <= cs.len(),
            trail(cs@, low as int, cs@.len() as int, class) == trail(cs@, low as int, j as int, class),
        decreases j,
    {
        j -= 1;
    }
    j
}

fn trim(cs: &Vec<char>, class: Trim) -> (r: Vec<char>)
    ensures
        r@ == trimmed(cs@, class),
{
    let mut from: usize = 0;
    while from < cs.len() && trims_check(class, cs[from])
        invariant
            from <= cs.len(),
            lead(cs@, 0, class) == lead(cs@, from as int, class),
        decreases cs.len() - from,
    {
        from += 1;
    }
    let mut out: Vec<char> = Vec::new();
    if from >= cs.len() {
        return out;
    }
    let to = trail_of(cs, from, class);
    let mut i: usize = from;
    while i < to
        invariant
            from <= i <= to <= cs.len(),
            out@ == cs@.subrange(from as int, i as int),
        decreases to - i,
    {
        out.push(cs[i]);
        assert(out@ =~= cs@.subrange(from as int, i + 1));
        i += 1;
    }
    out
}

/// The command as it is handed to the shell.
pub fn clean_command(cmd: String) -> (r: String)
    ensures
        r@ == cleaned(cmd@),
{
    let cs = chars_of(cmd.as_str());
    let a = trim(&cs, Trim::Space);
    let b = trim(&a, Trim::DoubleQuote);
    let c = trim(&b, Trim::SingleQuote);
    text_of(&c, 0, c.len())
}

/// The command that `exec` hands to the shell, or the failure that it
/// reports for its arguments.
pub open spec fn command_of(args: Seq<SpannedView>) -> Result<Seq<char>, (Seq<char>, Span)> {
    if args.len() != 1 {
        Err(("exec takes exactly one argument"@, first_span(args)))
    } else {
        match text_at(args, 0) {
            Some(cmd) => Ok(cleaned(cmd)),
            None => Err(("exec expects a string argument"@, first_span(args))),
        }
    }
}

/// `exec`: the command that is handed to the shell. The host runs it and
/// makes the result of what it wrote with `output`.
pub fn exec(args: &Vec<SpannedExpr>) -> (r: Result<String, (String, Span)>)
    ensures
        match r {
            Ok(cmd) => command_of(nodes_view(args@)) == Ok::<Seq<char>, (Seq<char>, Span)>(cmd@),
            Err(e) => command_of(nodes_view(args@)) == Err::<Seq<char>, (Seq<char>, Span)>(
                (e.0@, e.1),
            ),
        },
{
    if args.len() != 1 {
        return Err((String::from_str("exec takes exactly one argument"), span_of_first(args)));
    }
    match text_argument(args, 0) {
        Some(cmd) => Ok(clean_command(cmd)),
        None => Err((String::from_str("exec expects a string argument"), span_of_first(args))),
    }
}

/// What `exec` returns for what the command wrote: its standard output
/// followed by its standard error, without white space at the end.
pub open spec fn executed(stdout: Seq<char>, stderr: Seq<char>) -> NativeResult {
    value(ExprView::String(trimmed_end(stdout + stderr, Trim::Space)))
}

/// What `exec` returns for what the command wrote.
pub fn output(stdout: &str, stderr: &str) -> (r: Result<InternalFunctionResponse, (String, Span)>)
    ensures
        gives(r, executed(stdout@, stderr@)),
{
    let both = joined(stdout, stderr);
    let cs = chars_of(both.as_str());
    let to = trail_of(&cs, 0, Trim::Space);
    done(Expr::String(text_of(&cs, 0, to)))
}

/// The package `os` on the platform called `platform`.
pub fn get_object(platform: &str) -> (r: Expr)
    ensures
        r@ == (ExprView::Module { symbols: crate::libraries::os_symbols(platform@) }),
{
    crate::libraries::os_object(platform)
}

} // verus!
