//! Verified construction of the decimal strings used in port names and in the
//! state report: plain decimal integers and the gain factor written as a
//! decimal fraction of the stored percentage.

use vstd::prelude::*;

verus! {

/// The character of a single decimal digit.
pub open spec fn spec_digit_char(d: int) -> char
    recommends
        0 <= d < 10,
{
    if d == 0 {
        '0'
    } else if d == 1 {
        '1'
    } else if d == 2 {
        '2'
    } else if d == 3 {
        '3'
    } else if d == 4 {
        '4'
    } else if d == 5 {
        '5'
    } else if d == 6 {
        '6'
    } else if d == 7 {
        '7'
    } else if d == 8 {
        '8'
    } else {
        '9'
    }
}

/// The decimal representation of a non-negative integer, most significant
/// digit first, with no leading zeros (a single `'0'` for zero).
pub open spec fn spec_decimal(n: int) -> Seq<char>
    recommends
        n >= 0,
    decreases n,
{
    if n < 10 {
        seq![spec_digit_char(n)]
    } else {
        spec_decimal(n / 10) + seq![spec_digit_char(n % 10)]
    }
}

/// The gain factor `percent / 100` written as a decimal fraction with the
/// trailing zeros of the fractional part dropped, and no fractional part at
/// all when the percentage is a multiple of one hundred.
pub open spec fn spec_gain_string(percent: int) -> Seq<char>
    recommends
        0 <= percent <= 200,
{
    let whole = percent / 100;
    let frac = percent % 100;
    if frac == 0 {
        spec_decimal(whole)
    } else if frac % 10 == 0 {
        spec_decimal(whole) + "."@ + spec_decimal(frac / 10)
    } else if frac < 10 {
        spec_decimal(whole) + "."@ + "0"@ + spec_decimal(frac)
    } else {
        spec_decimal(whole) + "."@ + spec_decimal(frac)
    }
}

/// A one-character string slice for a single decimal digit.
fn digit_str(d: u64) -> (r: &'static str)
    requires
        d < 10,
    ensures
        r@ == seq![spec_digit_char(d as int)],
{
    let r: &'static str = if d == 0 {
        "0"
    } else if d == 1 {
        "1"
    } else if d == 2 {
        "2"
    } else if d == 3 {
        "3"
    } else if d == 4 {
        "4"
    } else if d == 5 {
        "5"
    } else if d == 6 {
        "6"
    } else if d == 7 {
        "7"
    } else if d == 8 {
        "8"
    } else {
        "9"
    };
    proof {
        reveal_strlit("0");
        reveal_strlit("1");
        reveal_strlit("2");
        reveal_strlit("3");
        reveal_strlit("4");
        reveal_strlit("5");
        reveal_strlit("6");
        reveal_strlit("7");
        reveal_strlit("8");
        reveal_strlit("9");
        assert(r@ =~= seq![spec_digit_char(d as int)]);
    }
    r
}

/// Builds the decimal representation of `n`.
pub fn decimal_string(n: u64) -> (r: String)
    ensures
        r@ == spec_decimal(n as int),
    decreases n,
{
    if n < 10 {
        String::from_str(digit_str(n))
    } else {
        let mut s = decimal_string(n / 10);
        s.append(digit_str(n % 10));
        s
    }
}

/// Builds the textual gain factor of a gain percentage, e.g. `"0.5"` for
/// fifty percent and `"1"` for one hundred.
pub fn gain_string(percent: u32) -> (r: String)
    requires
        percent <= 200,
    ensures
        r@ == spec_gain_string(percent as int),
{
    let whole = (percent / 100) as u64;
    let frac = percent % 100;
    if frac == 0 {
        decimal_string(whole)
    } else if frac % 10 == 0 {
        let mut s = decimal_string(whole);
        s.append(".");
        let d = decimal_string((frac / 10) as u64);
        s.append(d.as_str());
        s
    } else if frac < 10 {
        let mut s = decimal_string(whole);
        s.append(".");
        s.append("0");
        let d = decimal_string(frac as u64);
        s.append(d.as_str());
        s
    } else {
        let mut s = decimal_string(whole);
        s.append(".");
        let d = decimal_string(frac as u64);
        s.append(d.as_str());
        s
    }
}

} // verus!
