//! Decimal formatting of the fixed-point progress values.
//!
//! Progress is carried as hundredths of a percent, so a percentage is
//! printed as the whole percent part, a dot, and exactly two fraction
//! digits.

use vstd::prelude::*;
use vstd::string::StringExecFns;

verus! {

/// The decimal digit character for `d` (only meaningful for `0 <= d <= 9`).
pub open spec fn digit_char(d: int) -> char {
    if d == 0 {
        '0'
    } else if d == 1 {
        '1'
    } else if d == 2 {
        '2'
    } else if d == 3 {
        '3'
    } else if d == 4 {
        '4'
    } else if d == 5 {
        '5'
    } else if d == 6 {
        '6'
    } else if d == 7 {
        '7'
    } else if d == 8 {
        '8'
    } else {
        '9'
    }
}

/// The usual decimal notation of `n`, most significant digit first, with no
/// leading zeros (a single `'0'` for zero).
pub open spec fn dec_digits(n: int) -> Seq<char>
    decreases n,
{
    if n < 10 {
        seq![digit_char(n)]
    } else {
        dec_digits(n / 10).push(digit_char(n % 10))
    }
}

/// Exactly two decimal digits, high digit first, zero-padded (only
/// meaningful for `0 <= n <= 99`).
pub open spec fn two_digits(n: int) -> Seq<char> {
    seq![digit_char(n / 10), digit_char(n % 10)]
}

/// The rendered percentage text for a fixed-point progress value `p`
/// (hundredths of a percent): whole percents, a dot, two fraction digits.
pub open spec fn percent_chars(p: u32) -> Seq<char> {
    dec_digits(p as int / 100) + seq!['.'] + two_digits(p as int % 100)
}

fn digit_of(d: u32) -> (c: char)
    requires
        d < 10,
    ensures
        c == digit_char(d as int),
{
    match d {
        0 => '0',
        1 => '1',
        2 => '2',
        3 => '3',
        4 => '4',
        5 => '5',
        6 => '6',
        7 => '7',
        8 => '8',
        _ => '9',
    }
}

/// Format `n` in decimal.
pub fn format_u32(n: u32) -> (s: String)
    ensures
        s@ == dec_digits(n as int),
    decreases n,
{
    if n < 10 {
        let mut s = String::new();
        s.push(digit_of(n));
        s
    } else {
        let mut s = format_u32(n / 10);
        s.push(digit_of(n % 10));
        s
    }
}

/// Format `n` as exactly two decimal digits, zero-padded.
pub fn format_two_digits(n: u32) -> (s: String)
    requires
        n < 100,
    ensures
        s@ == two_digits(n as int),
{
    let mut s = String::new();
    s.push(digit_of(n / 10));
    s.push(digit_of(n % 10));
    s
}

/// Format the percentage text for a fixed-point progress value.
pub fn format_percent(p: u32) -> (s: String)
    ensures
        s@ == percent_chars(p),
{
    let mut s = format_u32(p / 100);
    s.push('.');
    let frac = format_two_digits(p % 100);
    s.append(frac.as_str());
    proof {
        assert(s@ =~= percent_chars(p));
    }
    s
}

} // verus!
