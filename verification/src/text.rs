//! Text helpers: the standard library's case folding and debug quoting, and
//! decimal numerals.

use vstd::prelude::*;

verus! {

/// The lowercase form of a string, as `str::to_lowercase` of the standard
/// library computes it from the Unicode tables.
pub uninterp spec fn lowercase_of(s: Seq<char>) -> Seq<char>;

/// The quoted and escaped form of a string, as the standard library's
/// `Debug` formatting of `str` writes it.
pub uninterp spec fn debug_text_of(s: Seq<char>) -> Seq<char>;

/// Calls `str::to_lowercase`.
///
/// Trusted: the result is the lowercase form of `s`, which depends on the
/// characters of `s` alone. Nothing else is claimed of it.
#[verifier::external_body]
pub(crate) fn lowercase(s: &str) -> (result: String)
    ensures
        result@ == lowercase_of(s@),
{
    s.to_lowercase()
}

/// Formats `s` with the standard library's `{:?}`.
///
/// Trusted: the result is the debug form of `s`, which depends on the
/// characters of `s` alone. Nothing else is claimed of it.
#[verifier::external_body]
pub(crate) fn debug_quoted(s: &str) -> (result: String)
    ensures
        result@ == debug_text_of(s@),
{
    format!("{:?}", s)
}

/// The numeral of a single decimal digit.
pub open spec fn digit_text(d: nat) -> Seq<char> {
    if d == 0 {
        "0"@
    } else if d == 1 {
        "1"@
    } else if d == 2 {
        "2"@
    } else if d == 3 {
        "3"@
    } else if d == 4 {
        "4"@
    } else if d == 5 {
        "5"@
    } else if d == 6 {
        "6"@
    } else if d == 7 {
        "7"@
    } else if d == 8 {
        "8"@
    } else {
        "9"@
    }
}

/// The decimal numeral of `n`, most significant digit first, without
/// leading zeros.
pub open spec fn decimal_text(n: nat) -> Seq<char>
    decreases n,
{
    if n < 10 {
        digit_text(n)
    } else {
        decimal_text(n / 10) + digit_text(n % 10)
    }
}

fn digit(d: u8) -> (result: &'static str)
    requires
        d < 10,
    ensures
        result@ == digit_text(d as nat),
{
    match d {
        0 => "0",
        1 => "1",
        2 => "2",
        3 => "3",
        4 => "4",
        5 => "5",
        6 => "6",
        7 => "7",
        8 => "8",
        _ => "9",
    }
}

/// Writes `n` as a decimal numeral.
pub fn decimal(n: u8) -> (result: String)
    ensures
        result@ == decimal_text(n as nat),
{
    proof {
        reveal_with_fuel(decimal_text, 3);
    }
    if n < 10 {
        String::from_str(digit(n))
    } else if n < 100 {
        String::from_str(digit(n / 10)).concat(digit(n % 10))
    } else {
        String::from_str(digit(n / 100)).concat(digit(n / 10 % 10)).concat(digit(n % 10))
    }
}

} // verus!
