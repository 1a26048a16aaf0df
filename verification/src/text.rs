//! Text that the replies and requests are made of: decimal numbers, URL
//! query values, lower-casing and the parsing of Discord ids.

use vstd::prelude::*;
use vstd::string::StringSliceAdditionalSpecFns;

verus! {

/// The character of the decimal digit `d`.
pub open spec fn digit_char(d: int) -> char {
    (d + 48) as char
}

/// `n` written in decimal, without leading zeros.
pub open spec fn decimal(n: nat) -> Seq<char>
    decreases n,
{
    if n < 10 {
        seq![digit_char(n as int)]
    } else {
        decimal(n / 10).push(digit_char((n % 10) as int))
    }
}

/// `n` written in decimal, with a minus sign when it is negative.
pub open spec fn signed_decimal(n: int) -> Seq<char> {
    if n < 0 {
        seq!['-'] + decimal((-n) as nat)
    } else {
        decimal(n as nat)
    }
}

/// Formats `x` in decimal. Calls `u64::to_string`, which std documents
/// as the `Display` form of the number: its decimal digits, without leading
/// zeros.
#[verifier::external_body]
pub(crate) fn u64_to_string(x: u64) -> (r: String)
    ensures
        r@ == decimal(x as nat),
{
    x.to_string()
}

/// Formats `x` in decimal. Calls `i64::to_string`, which std documents
/// as the `Display` form of the number: a minus sign for negative numbers,
/// then the decimal digits of its magnitude without leading zeros.
#[verifier::external_body]
pub(crate) fn i64_to_string(x: i64) -> (r: String)
    ensures
        r@ == signed_decimal(x as int),
{
    x.to_string()
}

/// Whether `b` is left as it is in a URL query value: an ASCII letter or
/// digit, `-`, `.`, `_` or `~`.
pub open spec fn url_unreserved(b: u8) -> bool {
    ||| (48 <= b <= 57)
    ||| (65 <= b <= 90)
    ||| (97 <= b <= 122)
    ||| b == 45
    ||| b == 46
    ||| b == 95
    ||| b == 126
}

/// The upper-case hexadecimal digit of `d`, for `d < 16`.
pub open spec fn hex_upper(d: int) -> char {
    if d < 10 {
        (d + 48) as char
    } else {
        (d + 55) as char
    }
}

/// How one byte is written in a URL query value: as itself when it is
/// unreserved, else as `%` and its two upper-case hexadecimal digits.
pub open spec fn url_encode_byte(b: u8) -> Seq<char> {
    if url_unreserved(b) {
        seq![b as char]
    } else {
        seq!['%', hex_upper(b as int / 16), hex_upper(b as int % 16)]
    }
}

/// The bytes written one after another as in a URL query value.
pub open spec fn url_encode_bytes(bytes: Seq<u8>) -> Seq<char>
    decreases bytes.len(),
{
    if bytes.len() == 0 {
        seq![]
    } else {
        url_encode_byte(bytes[0]) + url_encode_bytes(bytes.drop_first())
    }
}

/// Percent-encodes `s` for a URL query. Calls `urlencoding::encode`, which
/// writes each byte of the UTF-8 form of `s` as itself when it is an ASCII
/// letter or digit or one of `-._~`, and as `%` with two upper-case hex
/// digits otherwise.
#[verifier::external_body]
pub(crate) fn url_encode(s: &str) -> (r: String)
    ensures
        r@ == url_encode_bytes(s.spec_bytes()),
{
    urlencoding::encode(s).into_owned()
}

/// The lower-case form of a string, as `str::to_lowercase` computes it from
/// the Unicode lower-case mappings of its characters.
pub uninterp spec fn lowercase(s: Seq<char>) -> Seq<char>;

/// Lower-cases `s`. Calls `str::to_lowercase`; its result is only named
/// here, as a function of `s`.
#[verifier::external_body]
pub(crate) fn to_lowercase(s: &str) -> (r: String)
    ensures
        r@ == lowercase(s@),
{
    s.to_lowercase()
}

/// Whether every character of `s` is a decimal digit.
pub open spec fn all_digits(s: Seq<char>) -> bool {
    forall|i: int| 0 <= i < s.len() ==> '0' <= #[trigger] s[i] <= '9'
}

/// The number that the decimal digits `s` stand for.
pub open spec fn digits_value(s: Seq<char>) -> int
    decreases s.len(),
{
    if s.len() == 0 {
        0
    } else {
        digits_value(s.drop_last()) * 10 + (s.last() as int - 48)
    }
}

/// What `s` reads as, as an unsigned 64-bit number: an optional `+` then at
/// least one decimal digit, of a value that fits.
pub open spec fn parse_u64_spec(s: Seq<char>) -> Option<u64> {
    let d = if s.len() > 0 && s[0] == '+' { s.drop_first() } else { s };
    if d.len() > 0 && all_digits(d) && digits_value(d) <= u64::MAX {
        Some(digits_value(d) as u64)
    } else {
        None
    }
}

/// The decimal form of a number is a non-empty run of digits, without a
/// sign, whose value is the number.
pub proof fn decimal_digits_value(n: nat)
    ensures
        decimal(n).len() > 0,
        all_digits(decimal(n)),
        digits_value(decimal(n)) == n,
        decimal(n)[0] != '+',
    decreases n,
{
    let d = (n % 10) as int;
    assert(digit_char(d) as int == d + 48);
    if n < 10 {
        assert(decimal(n).drop_last() =~= Seq::<char>::empty());
        assert(digits_value(Seq::<char>::empty()) == 0);
    }
    if n >= 10 {
        decimal_digits_value(n / 10);
        let s = decimal(n / 10);
        assert(decimal(n).drop_last() =~= s);
        assert(decimal(n).last() == digit_char(d));
        assert((n / 10) * 10 + n % 10 == n) by (nonlinear_arith);
        assert(digits_value(decimal(n)) == digits_value(s) * 10 + d);
        assert(decimal(n)[0] == s[0]);
        assert forall|i: int| 0 <= i < decimal(n).len() implies '0' <= #[trigger] decimal(n)[i]
            <= '9' by {
            if i < s.len() {
                assert(decimal(n)[i] == s[i]);
            }
        }
    }
}

/// Every id reads back from its decimal form, with or without a leading
/// `+`: the reading gives the number itself.
pub proof fn parse_reads_decimal(v: u64)
    ensures
        parse_u64_spec(decimal(v as nat)) == Some(v),
        parse_u64_spec(seq!['+'] + decimal(v as nat)) == Some(v),
{
    decimal_digits_value(v as nat);
    assert((seq!['+'] + decimal(v as nat)).drop_first() =~= decimal(v as nat));
}

/// A text with a character other than a digit after an optional leading
/// `+`, or an empty text, does not read as a number.
pub proof fn parse_rejects_non_digits(s: Seq<char>, k: int)
    requires
        s.len() == 0 || (0 < k < s.len() && !('0' <= s[k] <= '9')) || (k == 0 && s.len() > 0 && s[0]
            != '+' && !('0' <= s[0] <= '9')),
    ensures
        parse_u64_spec(s) is None,
{
    if s.len() > 0 && s[0] == '+' && 0 < k < s.len() {
        assert(s.drop_first()[k - 1] == s[k]);
    }
}

} // verus!
