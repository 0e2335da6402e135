//! Decimal rendering of unsigned values, used by the log-line and
//! timestamp formatters.

use vstd::prelude::*;
use vstd::string::*;

verus! {

/// The decimal digit character for `d`, for `0 <= d <= 9`.
pub open spec fn digit_char(d: int) -> char {
    if d == 0 {
        '0'
    } else if d == 1 {
        '1'
    } else if d == 2 {
        '2'
    } else if d == 3 {
        '3'
    } else if d == 4 {
        '4'
    } else if d == 5 {
        '5'
    } else if d == 6 {
        '6'
    } else if d == 7 {
        '7'
    } else if d == 8 {
        '8'
    } else {
        '9'
    }
}

/// `true` for the ten decimal digit characters.
pub open spec fn is_digit(c: char) -> bool {
    '0' <= c && c <= '9'
}

/// The decimal digits of `n >= 0`, most significant first, with no leading
/// zero except for `n == 0` itself.
pub open spec fn dec_digits(n: int) -> Seq<char>
    recommends
        n >= 0,
    decreases n,
{
    if n < 10 {
        seq![digit_char(n)]
    } else {
        dec_digits(n / 10) + seq![digit_char(n % 10)]
    }
}

/// One-character string for the digit `d`.
fn digit_str(d: u32) -> (r: &'static str)
    requires
        d <= 9,
    ensures
        r@ == seq![digit_char(d as int)],
{
    let r: &'static str = if d == 0 {
        "0"
    } else if d == 1 {
        "1"
    } else if d == 2 {
        "2"
    } else if d == 3 {
        "3"
    } else if d == 4 {
        "4"
    } else if d == 5 {
        "5"
    } else if d == 6 {
        "6"
    } else if d == 7 {
        "7"
    } else if d == 8 {
        "8"
    } else {
        "9"
    };
    proof {
        reveal_strlit("0");
        reveal_strlit("1");
        reveal_strlit("2");
        reveal_strlit("3");
        reveal_strlit("4");
        reveal_strlit("5");
        reveal_strlit("6");
        reveal_strlit("7");
        reveal_strlit("8");
        reveal_strlit("9");
        assert(r@ =~= seq![digit_char(d as int)]);
    }
    r
}

/// Renders `n` in decimal, most significant digit first, no leading zeros.
pub fn u32_to_decimal(n: u32) -> (r: String)
    ensures
        r@ == dec_digits(n as int),
    decreases n,
{
    let d = digit_str(n % 10);
    if n < 10 {
        String::from_str(d)
    } else {
        let prefix = u32_to_decimal(n / 10);
        prefix.concat(d)
    }
}

/// Renders `n < 100` as exactly two digits, zero-padded.
pub fn two_digits(n: u32) -> (r: String)
    requires
        n < 100,
    ensures
        r@ == seq![digit_char(n as int / 10), digit_char(n as int % 10)],
{
    let s = String::from_str(digit_str(n / 10));
    s.concat(digit_str(n % 10))
}

/// Renders `n < 10000` as exactly four digits, zero-padded.
pub fn four_digits(n: u32) -> (r: String)
    requires
        n < 10000,
    ensures
        r@ == seq![
            digit_char(n as int / 1000),
            digit_char(n as int / 100 % 10),
            digit_char(n as int / 10 % 10),
            digit_char(n as int % 10),
        ],
{
    let s = String::from_str(digit_str(n / 1000));
    let s = s.concat(digit_str(n / 100 % 10));
    let s = s.concat(digit_str(n / 10 % 10));
    s.concat(digit_str(n % 10))
}

} // verus!
