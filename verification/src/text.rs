//! Plain-text projections of view state: decimal rendering, timestamps,
//! uptime, identifier truncation and padding.
//!
//! Rendering in the console is a pure read: each helper here maps values to
//! the exact character sequence its specification names, and mutates nothing.

use vstd::prelude::*;
use vstd::string::*;

verus! {

/// The character for one decimal digit.
pub open spec fn digit_char(d: int) -> char
    recommends
        0 <= d < 10,
{
    if d == 0 {
        '0'
    } else if d == 1 {
        '1'
    } else if d == 2 {
        '2'
    } else if d == 3 {
        '3'
    } else if d == 4 {
        '4'
    } else if d == 5 {
        '5'
    } else if d == 6 {
        '6'
    } else if d == 7 {
        '7'
    } else if d == 8 {
        '8'
    } else {
        '9'
    }
}

/// The decimal digits of `n`, most significant first, with no leading zeros
/// (a single `'0'` for zero).
pub open spec fn dec_digits(n: int) -> Seq<char>
    recommends
        n >= 0,
    decreases n,
{
    if n < 10 {
        seq![digit_char(n)]
    } else {
        dec_digits(n / 10).push(digit_char(n % 10))
    }
}

/// Relies on `String::push`: appends exactly the given character.
#[verifier::external_body]
pub(crate) fn push_char(s: &mut String, c: char)
    ensures
        final(s)@ == old(s)@.push(c),
{
    s.push(c);
}

fn digit_to_char(d: u64) -> (c: char)
    requires
        d < 10,
    ensures
        c == digit_char(d as int),
{
    if d == 0 {
        '0'
    } else if d == 1 {
        '1'
    } else if d == 2 {
        '2'
    } else if d == 3 {
        '3'
    } else if d == 4 {
        '4'
    } else if d == 5 {
        '5'
    } else if d == 6 {
        '6'
    } else if d == 7 {
        '7'
    } else if d == 8 {
        '8'
    } else {
        '9'
    }
}

/// `n` written in decimal.
pub fn u64_string(n: u64) -> (s: String)
    ensures
        s@ == dec_digits(n as int),
    decreases n,
{
    if n < 10 {
        let mut s = String::new();
        push_char(&mut s, digit_to_char(n));
        s
    } else {
        let mut s = u64_string(n / 10);
        push_char(&mut s, digit_to_char(n % 10));
        s
    }
}

/// `n < 100` written as exactly two digits, zero-padded.
pub open spec fn two_digits(n: int) -> Seq<char>
    recommends
        0 <= n < 100,
{
    seq![digit_char(n / 10), digit_char(n % 10)]
}

/// `n` written as exactly two digits, zero-padded.
pub fn two_digit_string(n: u64) -> (s: String)
    requires
        n < 100,
    ensures
        s@ == two_digits(n as int),
{
    let mut s = String::new();
    push_char(&mut s, digit_to_char(n / 10));
    push_char(&mut s, digit_to_char(n % 10));
    proof {
        assert(s@ =~= two_digits(n as int));
    }
    s
}

/// The time of day of the timestamp `ts` (seconds), as `HH:MM:SS`.
pub open spec fn spec_timestamp(ts: u64) -> Seq<char> {
    let secs = (ts as int) % 86400;
    two_digits(secs / 3600) + seq![':'] + two_digits((secs % 3600) / 60) + seq![':'] + two_digits(
        secs % 60,
    )
}

/// Render a timestamp's time of day as `HH:MM:SS`.
pub fn format_timestamp(ts: u64) -> (r: String)
    ensures
        r@ == spec_timestamp(ts),
{
    let secs = ts % 86400;
    let hours = secs / 3600;
    let minutes = (secs % 3600) / 60;
    let seconds = secs % 60;
    let mut s = two_digit_string(hours);
    push_char(&mut s, ':');
    let m = two_digit_string(minutes);
    s.append(m.as_str());
    push_char(&mut s, ':');
    let sec = two_digit_string(seconds);
    s.append(sec.as_str());
    proof {
        assert(s@ =~= spec_timestamp(ts));
    }
    s
}

/// An uptime in seconds rendered as `Dd Hh Mm`, `Hh Mm` or `Mm`, keeping
/// only the units whose leading value is nonzero.
pub open spec fn spec_uptime(secs: u64) -> Seq<char> {
    let days = (secs as int) / 86400;
    let hours = ((secs as int) % 86400) / 3600;
    let minutes = ((secs as int) % 3600) / 60;
    if days > 0 {
        dec_digits(days) + seq!['d', ' '] + dec_digits(hours) + seq!['h', ' '] + dec_digits(minutes)
            + seq!['m']
    } else if hours > 0 {
        dec_digits(hours) + seq!['h', ' '] + dec_digits(minutes) + seq!['m']
    } else {
        dec_digits(minutes) + seq!['m']
    }
}

/// Render an uptime in seconds as `Dd Hh Mm`, `Hh Mm` or `Mm`.
pub fn format_uptime(secs: u64) -> (r: String)
    ensures
        r@ == spec_uptime(secs),
{
    let days = secs / 86400;
    let hours = (secs % 86400) / 3600;
    let minutes = (secs % 3600) / 60;
    let mut s = String::new();
    if days > 0 {
        s.append(u64_string(days).as_str());
        push_char(&mut s, 'd');
        push_char(&mut s, ' ');
        s.append(u64_string(hours).as_str());
        push_char(&mut s, 'h');
        push_char(&mut s, ' ');
        s.append(u64_string(minutes).as_str());
        push_char(&mut s, 'm');
    } else if hours > 0 {
        s.append(u64_string(hours).as_str());
        push_char(&mut s, 'h');
        push_char(&mut s, ' ');
        s.append(u64_string(minutes).as_str());
        push_char(&mut s, 'm');
    } else {
        s.append(u64_string(minutes).as_str());
        push_char(&mut s, 'm');
    }
    proof {
        assert(s@ =~= spec_uptime(secs));
    }
    s
}

/// A number of tenths rendered with one decimal place, as in `12.5`.
pub open spec fn spec_tenths(tenths: int) -> Seq<char>
    recommends
        tenths >= 0,
{
    dec_digits(tenths / 10) + seq!['.', digit_char(tenths % 10)]
}

/// Render a number of tenths with one decimal place (`125` becomes `12.5`).
pub fn tenths_string(tenths: u64) -> (r: String)
    ensures
        r@ == spec_tenths(tenths as int),
{
    let mut s = u64_string(tenths / 10);
    push_char(&mut s, '.');
    push_char(&mut s, digit_to_char(tenths % 10));
    proof {
        assert(s@ =~= spec_tenths(tenths as int));
    }
    s
}

/// `s` padded on the right with spaces to at least `width` characters.
pub open spec fn spec_pad_right(s: Seq<char>, width: int) -> Seq<char> {
    if s.len() >= width {
        s
    } else {
        s + Seq::new((width - s.len()) as nat, |i: int| ' ')
    }
}

/// Pad a string on the right with spaces to at least `width` characters.
pub fn pad_right(s: &str, width: usize) -> (r: String)
    ensures
        r@ == spec_pad_right(s@, width as int),
{
    let mut r = String::from_str(s);
    let n = s.unicode_len();
    let mut i: usize = n;
    while i < width
        invariant
            n == s@.len(),
            n <= i,
            i <= width || i == n,
            r@ == spec_pad_right(s@, i as int),
        decreases width - i,
    {
        push_char(&mut r, ' ');
        i = i + 1;
        proof {
            assert(r@ =~= spec_pad_right(s@, i as int));
        }
    }
    r
}

/// Whether two string slices hold the same characters.
pub fn str_eq(a: &str, b: &str) -> (r: bool)
    ensures
        r == (a@ == b@),
{
    let sa = String::from_str(a);
    let sb = String::from_str(b);
    sa.eq(&sb)
}

/// An identifier shortened for display: kept whole when it fits in
/// `max_len` characters, otherwise cut to `max_len - 3` characters with an
/// ellipsis appended.
pub open spec fn spec_truncated(s: Seq<char>, max_len: int) -> Seq<char>
    recommends
        max_len >= 3,
{
    if s.len() <= max_len {
        s
    } else {
        s.subrange(0, max_len - 3) + seq!['.', '.', '.']
    }
}

/// Shorten an identifier for display, keeping the first characters and
/// appending an ellipsis when it does not fit.
pub fn truncate_did(did: &str, max_len: usize) -> (r: String)
    requires
        max_len >= 3,
    ensures
        r@ == spec_truncated(did@, max_len as int),
{
    let n = did.unicode_len();
    if n <= max_len {
        String::from_str(did)
    } else {
        let head = did.substring_char(0, max_len - 3);
        let mut s = String::from_str(head);
        push_char(&mut s, '.');
        push_char(&mut s, '.');
        push_char(&mut s, '.');
        proof {
            assert(s@ =~= spec_truncated(did@, max_len as int));
        }
        s
    }
}

} // verus!
