//! Decimal rendering of integers, including fixed-point values kept in
//! tenths or hundredths. Progress text needs "12.5 MB" and "42.17%" without
//! any floating point: callers pass scaled integers.

use vstd::prelude::*;

verus! {

/// The character for a single decimal digit.
pub open spec fn digit_char(d: nat) -> char {
    if d == 0 {
        '0'
    } else if d == 1 {
        '1'
    } else if d == 2 {
        '2'
    } else if d == 3 {
        '3'
    } else if d == 4 {
        '4'
    } else if d == 5 {
        '5'
    } else if d == 6 {
        '6'
    } else if d == 7 {
        '7'
    } else if d == 8 {
        '8'
    } else {
        '9'
    }
}

/// The usual decimal rendering of `n`, most significant digit first,
/// without leading zeros (except for `n == 0` itself).
pub open spec fn spec_dec(n: nat) -> Seq<char>
    decreases n,
{
    if n < 10 {
        seq![digit_char(n)]
    } else {
        spec_dec(n / 10) + seq![digit_char(n % 10)]
    }
}

/// One decimal digit as a string slice.
fn digit_str(d: u64) -> (r: &'static str)
    requires
        d < 10,
    ensures
        r@ == seq![digit_char(d as nat)],
{
    proof {
        reveal_strlit("0");
        reveal_strlit("1");
        reveal_strlit("2");
        reveal_strlit("3");
        reveal_strlit("4");
        reveal_strlit("5");
        reveal_strlit("6");
        reveal_strlit("7");
        reveal_strlit("8");
        reveal_strlit("9");
    }
    if d == 0 {
        "0"
    } else if d == 1 {
        "1"
    } else if d == 2 {
        "2"
    } else if d == 3 {
        "3"
    } else if d == 4 {
        "4"
    } else if d == 5 {
        "5"
    } else if d == 6 {
        "6"
    } else if d == 7 {
        "7"
    } else if d == 8 {
        "8"
    } else {
        "9"
    }
}

/// Render `n` in decimal.
pub fn u64_dec(n: u64) -> (r: String)
    ensures
        r@ == spec_dec(n as nat),
    decreases n,
{
    if n < 10 {
        String::from_str(digit_str(n))
    } else {
        let mut s = u64_dec(n / 10);
        s.append(digit_str(n % 10));
        s
    }
}

/// A value kept in tenths, rendered with one digit after the point:
/// `125` becomes `12.5`.
pub open spec fn spec_tenths(v: nat) -> Seq<char> {
    spec_dec(v / 10) + seq!['.'] + seq![digit_char(v % 10)]
}

/// Render a value kept in tenths as "whole.tenth".
pub fn tenths_dec(v: u64) -> (r: String)
    ensures
        r@ == spec_tenths(v as nat),
{
    proof {
        reveal_strlit(".");
    }
    let mut s = u64_dec(v / 10);
    s.append(".");
    s.append(digit_str(v % 10));
    s
}

/// A value kept in hundredths, rendered with two digits after the point:
/// `4217` becomes `42.17`.
pub open spec fn spec_hundredths(v: nat) -> Seq<char> {
    spec_dec(v / 100) + seq!['.'] + seq![digit_char((v / 10) % 10)] + seq![digit_char(v % 10)]
}

/// Render a value kept in hundredths as "whole.two-digits".
pub fn hundredths_dec(v: u64) -> (r: String)
    ensures
        r@ == spec_hundredths(v as nat),
{
    proof {
        reveal_strlit(".");
    }
    let mut s = u64_dec(v / 100);
    s.append(".");
    s.append(digit_str((v / 10) % 10));
    s.append(digit_str(v % 10));
    s
}

} // verus!
