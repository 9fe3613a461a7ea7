use vstd::prelude::*;
use vstd::utf8::valid_utf8;

verus! {

/// Whether Unicode gives `c` the property `Uppercase`.
pub uninterp spec fn unicode_uppercase(c: char) -> bool;

/// Whether Unicode gives `c` the property `Lowercase`.
pub uninterp spec fn unicode_lowercase(c: char) -> bool;

/// `char::is_uppercase` of the standard library.
#[verifier::external_body]
pub(crate) fn is_uppercase(c: char) -> (r: bool)
    ensures
        r == unicode_uppercase(c),
{
    c.is_uppercase()
}

/// `char::is_lowercase` of the standard library.
#[verifier::external_body]
pub(crate) fn is_lowercase(c: char) -> (r: bool)
    ensures
        r == unicode_lowercase(c),
{
    c.is_lowercase()
}

/// `std::str::from_utf8`, asked only whether it succeeds: it does exactly
/// on well-formed UTF-8.
#[verifier::external_body]
pub(crate) fn is_utf8(bytes: &[u8]) -> (r: bool)
    ensures
        r == valid_utf8(bytes@),
{
    std::str::from_utf8(bytes).is_ok()
}

/// The number that a row of decimal digits writes.
pub open spec fn digits_value(digits: Seq<char>) -> int
    decreases digits.len(),
{
    if digits.len() == 0 {
        0
    } else {
        digits_value(digits.drop_last()) * 10 + (digits.last() as u32 - '0' as u32)
    }
}

/// The number that a decimal numeral writes: an optional sign, which is
/// `+` or, where `signed`, `-`, then one digit or more, and nothing else.
/// Nothing where the text is no such numeral.
pub open spec fn decimal(text: Seq<char>, signed: bool) -> Option<int> {
    let negative = signed && text.len() > 0 && text[0] == '-';
    let digits = if text.len() > 0 && (text[0] == '+' || negative) {
        text.drop_first()
    } else {
        text
    };
    if digits.len() > 0 && (forall|i: int|
        0 <= i < digits.len() ==> '0' <= #[trigger] digits[i] <= '9') {
        Some(
            if negative {
                -digits_value(digits)
            } else {
                digits_value(digits)
            },
        )
    } else {
        None
    }
}

/// The number that `text` writes, where it is a decimal numeral of a
/// number that fits 64 bits with a sign.
pub open spec fn decimal_i64(text: Seq<char>) -> Option<i64> {
    match decimal(text, true) {
        Some(number) => if i64::MIN <= number <= i64::MAX {
            Some(number as i64)
        } else {
            None
        },
        None => None,
    }
}

/// `str::parse::<i64>` of the standard library: the text must be an
/// optional `+` or `-` followed by digits only, and the number must fit.
#[verifier::external_body]
pub(crate) fn parse_i64(text: &str) -> (r: Option<i64>)
    ensures
        r == decimal_i64(text@),
{
    text.parse::<i64>().ok()
}

/// The number that `text` writes, where it is a decimal numeral without a
/// `-` of a number that fits 16 bits.
pub open spec fn decimal_u16(text: Seq<char>) -> Option<u16> {
    match decimal(text, false) {
        Some(number) => if number <= u16::MAX {
            Some(number as u16)
        } else {
            None
        },
        None => None,
    }
}

/// `str::parse::<u16>` of the standard library: the text must be an
/// optional `+` followed by digits only, and the number must fit.
#[verifier::external_body]
pub(crate) fn parse_u16(text: &str) -> (r: Option<u16>)
    ensures
        r == decimal_u16(text@),
{
    text.parse::<u16>().ok()
}

/// `needle` stands somewhere in `hay`, character for character.
pub open spec fn occurs_in(needle: Seq<char>, hay: Seq<char>) -> bool {
    exists|i: int|
        0 <= i <= hay.len() - needle.len() && #[trigger] hay.subrange(i, i + needle.len())
            == needle
}

/// `str::contains` of the standard library, with a string as the pattern:
/// true exactly where the pattern matches a part of the string.
#[verifier::external_body]
pub(crate) fn text_contains(hay: &str, needle: &str) -> (r: bool)
    ensures
        r == occurs_in(needle@, hay@),
{
    hay.contains(needle)
}

} // verus!
