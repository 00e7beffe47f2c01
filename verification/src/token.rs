//! The text of primitive tokens: decimal digits, escaped characters and
//! strings, and base64. The digits are specified here in full; the other
//! three are named after the outside functions that compute them.

use vstd::prelude::*;

verus! {

/// The character of the decimal digit `d`, for `d` below ten.
pub open spec fn digit_char(d: nat) -> char {
    (48 + d) as u8 as char
}

/// The decimal digits of `n`, most significant first, without leading
/// zeros; zero is the single digit `0`.
pub open spec fn decimal_digits(n: nat) -> Seq<char>
    decreases n,
{
    if n < 10 {
        seq![digit_char(n)]
    } else {
        decimal_digits(n / 10).push(digit_char(n % 10))
    }
}

/// What `str::escape_debug` yields for the text `s`, collected into a string.
pub uninterp spec fn str_escape_debug(s: Seq<char>) -> Seq<char>;

/// What `char::escape_debug` yields for the character `c`, collected into a string.
pub uninterp spec fn char_escape_debug(c: char) -> Seq<char>;

/// The standard-alphabet, padded base64 text of `bytes`, as
/// `base64::encode_config_buf` with `base64::STANDARD` writes it.
pub uninterp spec fn base64_standard(bytes: Seq<u8>) -> Seq<char>;

/// Calls `lexical::to_string` on a `u128`. Assumed: the result is the plain
/// decimal rendering of the number, with no sign, separator or leading zero.
#[verifier::external_body]
pub(crate) fn decimal_text(n: u128) -> (r: String)
    ensures
        r@ == decimal_digits(n as nat),
{
    lexical::to_string(n)
}

/// Calls `str::escape_debug` and collects what it yields. Assumed: the
/// result depends on the characters of `v` alone.
#[verifier::external_body]
pub(crate) fn escape_str(v: &str) -> (r: String)
    ensures
        r@ == str_escape_debug(v@),
{
    v.escape_debug().collect()
}

/// Calls `char::escape_debug` and collects what it yields. Assumed: the
/// result depends on `c` alone.
#[verifier::external_body]
pub(crate) fn escape_char(c: char) -> (r: String)
    ensures
        r@ == char_escape_debug(c),
{
    c.escape_debug().collect()
}

/// Calls `base64::encode_config_buf` with `base64::STANDARD` on an empty
/// buffer. Assumed: the result depends on the bytes of `v` alone.
#[verifier::external_body]
pub(crate) fn base64_text(v: &[u8]) -> (r: String)
    ensures
        r@ == base64_standard(v@),
{
    let mut buf = String::new();
    base64::encode_config_buf(v, base64::STANDARD, &mut buf);
    buf
}

} // verus!
