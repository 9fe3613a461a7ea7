//! Identifiers, the clock, dates, and the checks on e-mail addresses and
//! passwords.

use vstd::prelude::*;
use vstd::utf8::encode_utf8;
use crate::bindings::chars::{
    is_lowercase, is_uppercase, occurs_in, text_contains, unicode_lowercase, unicode_uppercase,
};
use crate::bindings::clock::{
    naive_date_parsed, naive_datetime_parsed, parse_naive_date, parse_naive_datetime,
    parse_rfc3339, rfc3339_parsed, utc_now_seconds, LAST_INSTANT,
};
use crate::bindings::password::{bcrypt_hash, bcrypt_verdict, bcrypt_verify};
use crate::bindings::random::nanoid_format;
use crate::http_response::error_handler::{CustomError, DbFailure};
use crate::http_response::HttpCodeW;
use crate::utils::text::{chars_of, join};

verus! {

/// Work factor of the password hash.
pub const PASSWORD_COST: u32 = 10;

/// Shortest password accepted, in bytes.
pub const PASSWORD_MIN_BYTES: usize = 8;

/// What storage says when a unique constraint is violated.
pub open spec fn duplicate_key_marker() -> Seq<char> {
    "duplicate key value violates unique constraint"@
}

pub open spec fn is_digit(c: char) -> bool {
    '0' <= c <= '9'
}

pub open spec fn is_ascii_letter(c: char) -> bool {
    ('a' <= c <= 'z') || ('A' <= c <= 'Z')
}

/// A letter or a digit of ASCII.
pub open spec fn is_alphanumeric(c: char) -> bool {
    is_digit(c) || is_ascii_letter(c)
}

/// A character that needs no escaping in a URL: a letter or a digit of
/// ASCII, `_` or `-`.
pub open spec fn is_url_safe(c: char) -> bool {
    is_alphanumeric(c) || c == '_' || c == '-'
}

/// The letters and digits of ASCII, followed by `_` and `-` where
/// `with_marks` holds.
fn alphabet(with_marks: bool) -> (v: Vec<char>)
    ensures
        0 < v@.len() <= 64,
        forall|k: int| 0 <= k < v@.len() ==> (#[trigger] v@[k] as u32) < 128,
        forall|k: int| 0 <= k < v@.len() ==> is_url_safe(#[trigger] v@[k]),
        !with_marks ==> forall|k: int| 0 <= k < v@.len() ==> is_alphanumeric(#[trigger] v@[k]),
{
    let mut v: Vec<char> = Vec::new();
    let mut b: u8 = 0;
    while b < 128
        invariant
            b <= 128,
            v@.len() <= b,
            b > 48 ==> v@.len() > 0,
            v@.len() <= 62,
            forall|k: int| 0 <= k < v@.len() ==> (#[trigger] v@[k] as u32) < 128,
            forall|k: int| 0 <= k < v@.len() ==> is_alphanumeric(#[trigger] v@[k]),
            b <= 48 ==> v@.len() == 0,
            48 < b <= 58 ==> v@.len() == b - 48,
            58 <= b <= 65 ==> v@.len() == 10,
            65 < b <= 91 ==> v@.len() == b - 55,
            91 <= b <= 97 ==> v@.len() == 36,
            97 < b <= 123 ==> v@.len() == b - 61,
            123 <= b ==> v@.len() == 62,
        decreases 128 - b,
    {
        let c: char = b as char;
        if (b >= 48 && b < 58) || (b >= 65 && b < 91) || (b >= 97 && b < 123) {
            assert(is_alphanumeric(c));
            v.push(c);
        }
        b = b + 1;
    }
    if with_marks {
        v.push('_');
        v.push('-');
    }
    v
}

/// Generates a random ID for authentication purposes: 32 URL-safe
/// characters.
pub fn generate_auth_id() -> (r: String)
    ensures
        r@.len() == 32,
        forall|i: int| 0 <= i < r@.len() ==> is_url_safe(#[trigger] r@[i]),
{
    let letters = alphabet(true);
    let id = nanoid_format(letters.as_slice(), 32);
    assert forall|i: int| 0 <= i < id@.len() implies is_url_safe(#[trigger] id@[i]) by {
        assert(letters@.contains(id@[i]));
    }
    id
}

/// Generates a secure token for authentication: 64 letters and digits.
pub fn generate_secure_token() -> (r: String)
    ensures
        r@.len() == 64,
        forall|i: int| 0 <= i < r@.len() ==> is_alphanumeric(#[trigger] r@[i]),
{
    let letters = alphabet(false);
    let token = nanoid_format(letters.as_slice(), 64);
    assert forall|i: int| 0 <= i < token@.len() implies is_alphanumeric(#[trigger] token@[i]) by {
        assert(letters@.contains(token@[i]));
    }
    token
}

/// Generates a salt for password hashing: 16 URL-safe characters.
pub fn generate_salt() -> (r: String)
    ensures
        r@.len() == 16,
        forall|i: int| 0 <= i < r@.len() ==> is_url_safe(#[trigger] r@[i]),
{
    let letters = alphabet(true);
    let salt = nanoid_format(letters.as_slice(), 16);
    assert forall|i: int| 0 <= i < salt@.len() implies is_url_safe(#[trigger] salt@[i]) by {
        assert(letters@.contains(salt@[i]));
    }
    salt
}

/// Whether a storage failure reports a violated unique constraint.
pub open spec fn is_duplicate_key(failure: DbFailure) -> bool {
    occurs_in(duplicate_key_marker(), failure.detail@)
}

/// Tells whether a storage failure reports a violated unique constraint.
pub fn reports_duplicate_key(failure: &DbFailure) -> (r: bool)
    ensures
        r == is_duplicate_key(*failure),
{
    text_contains(failure.detail.as_str(), "duplicate key value violates unique constraint")
}

/// Sorts the outcome of a write for a caller that retries on duplicate
/// keys.
///
/// A success and any failure but a duplicate key are final and handed back.
/// A duplicate key counts as one more attempt and hands back nothing: the
/// caller may try again with another key.
pub fn check_if_is_duplicate_key_from_data_base<T>(
    attempts: &mut usize,
    result: Result<T, DbFailure>,
) -> (r: Option<Result<T, CustomError>>)
    requires
        *old(attempts) < usize::MAX,
    ensures
        match result {
            Ok(value) => r == Some(Ok::<T, CustomError>(value)) && *final(attempts) == *old(
                attempts,
            ),
            Err(failure) => if is_duplicate_key(failure) {
                r is None && *final(attempts) == *old(attempts) + 1
            } else {
                &&& *final(attempts) == *old(attempts)
                &&& r matches Some(Err(error)) && error.is(
                    failure.kind.status(),
                    failure.kind.message(failure.detail@),
                )
            },
        },
{
    match result {
        Ok(value) => Some(Ok(value)),
        Err(failure) => {
            if reports_duplicate_key(&failure) {
                *attempts = *attempts + 1;
                None
            } else {
                Some(Err(CustomError::from(failure)))
            }
        },
    }
}

/// The current instant, in seconds since the epoch.
pub fn now_date_time_utc() -> (r: i64)
    ensures
        0 <= r <= LAST_INSTANT,
{
    utc_now_seconds()
}

/// The wall clock of Bucharest, as the seconds since the epoch that a clock
/// on UTC would show the same date and time at.
///
/// This is `chrono::Utc::now` taken to `chrono_tz::Europe::Bucharest`; it
/// depends on the system clock, and nothing is promised of it.
#[verifier::external_body]
pub fn now_time() -> (r: i64) {
    chrono::Utc::now().with_timezone(&chrono_tz::Europe::Bucharest).naive_local().and_utc().timestamp()
}

/// The instant that a date string names: the first reading that succeeds
/// among `YYYY-MM-DD HH:MM:SS`, RFC 3339, `DD/MM/YYYY HH:MM:SS` and
/// `YYYY-MM-DD` (taken at midnight), all but the second in UTC.
pub open spec fn date_read(text: Seq<char>) -> Option<i64> {
    if naive_datetime_parsed(text, "%Y-%m-%d %H:%M:%S"@) is Some {
        naive_datetime_parsed(text, "%Y-%m-%d %H:%M:%S"@)
    } else if rfc3339_parsed(text) is Some {
        rfc3339_parsed(text)
    } else if naive_datetime_parsed(text, "%d/%m/%Y %H:%M:%S"@) is Some {
        naive_datetime_parsed(text, "%d/%m/%Y %H:%M:%S"@)
    } else {
        naive_date_parsed(text, "%Y-%m-%d"@)
    }
}

/// Parses a date string into an instant, in seconds since the epoch.
pub fn parse_date(date_str: &str) -> (r: Result<i64, CustomError>)
    ensures
        match date_read(date_str@) {
            Some(instant) => r matches Ok(t) && t == instant,
            None => r matches Err(e) && e.is(
                HttpCodeW::BadRequest,
                "Unable to parse date: "@ + date_str@,
            ),
        },
{
    if let Some(t) = parse_naive_datetime(date_str, "%Y-%m-%d %H:%M:%S") {
        return Ok(t);
    }
    if let Some(t) = parse_rfc3339(date_str) {
        return Ok(t);
    }
    if let Some(t) = parse_naive_datetime(date_str, "%d/%m/%Y %H:%M:%S") {
        return Ok(t);
    }
    if let Some(t) = parse_naive_date(date_str, "%Y-%m-%d") {
        return Ok(t);
    }
    Err(
        CustomError {
            error_status_code: HttpCodeW::BadRequest,
            error_message: join("Unable to parse date: ", date_str),
        },
    )
}

/// A character of the part of an address before the `@`.
pub open spec fn is_local_char(c: char) -> bool {
    is_alphanumeric(c) || c == '.' || c == '_' || c == '%' || c == '+' || c == '-'
}

/// A character of the domain of an address.
pub open spec fn is_domain_char(c: char) -> bool {
    is_alphanumeric(c) || c == '.' || c == '-'
}

/// `at` and `dot` part `text` into a local part, a domain and an ending:
/// neither of the first two is empty, the ending is two letters or more.
pub open spec fn parts_as_email(text: Seq<char>, at: int, dot: int) -> bool {
    &&& 0 < at
    &&& at + 1 < dot
    &&& dot + 2 < text.len()
    &&& text[at] == '@'
    &&& text[dot] == '.'
    &&& forall|i: int| 0 <= i < at ==> is_local_char(#[trigger] text[i])
    &&& forall|i: int| at < i < dot ==> is_domain_char(#[trigger] text[i])
    &&& forall|i: int| dot < i < text.len() ==> is_ascii_letter(#[trigger] text[i])
}

/// The text has the shape `local@domain.ending`.
pub open spec fn email_shaped(text: Seq<char>) -> bool {
    exists|at: int, dot: int| parts_as_email(text, at, dot)
}

fn ascii_letter(c: char) -> (r: bool)
    ensures
        r == is_ascii_letter(c),
{
    ('a' <= c && c <= 'z') || ('A' <= c && c <= 'Z')
}

fn alphanumeric(c: char) -> (r: bool)
    ensures
        r == is_alphanumeric(c),
{
    ('0' <= c && c <= '9') || ascii_letter(c)
}

fn local_char(c: char) -> (r: bool)
    ensures
        r == is_local_char(c),
{
    alphanumeric(c) || c == '.' || c == '_' || c == '%' || c == '+' || c == '-'
}

fn domain_char(c: char) -> (r: bool)
    ensures
        r == is_domain_char(c),
{
    alphanumeric(c) || c == '.' || c == '-'
}

/// Validates an email address format: a simple shape, stricter than what
/// mail systems accept.
pub fn validate_email(email: &str) -> (r: bool)
    ensures
        r == email_shaped(email@),
{
    let chars = chars_of(email);
    let n: usize = chars.len();
    let mut at: usize = 0;
    while at < n && local_char(chars[at])
        invariant
            at <= n,
            n == chars@.len(),
            forall|i: int| 0 <= i < at ==> is_local_char(#[trigger] chars@[i]),
        decreases n - at,
    {
        at = at + 1;
    }
    // Whatever parts the text as an address, its `@` is where the local
    // characters end.
    assert forall|a: int, d: int| parts_as_email(chars@, a, d) implies a == at by {
        if a < at {
            assert(is_local_char(chars@[a]));
        }
        if at < a {
            assert(is_local_char(chars@[at as int]));
        }
    }
    if at == 0 || at >= n || chars[at] != '@' {
        return false;
    }
    let mut end: usize = n;
    while end > at + 1 && ascii_letter(chars[end - 1])
        invariant
            at < end <= n,
            n == chars@.len(),
            forall|i: int| end <= i < n ==> is_ascii_letter(#[trigger] chars@[i]),
        decreases end,
    {
        end = end - 1;
    }
    // And its last dot is where the letters at the end begin.
    assert forall|a: int, d: int| parts_as_email(chars@, a, d) implies d == end - 1 by {
        if d < end - 1 {
            assert(is_ascii_letter(chars@[end - 1]));
        }
        if end - 1 < d {
            assert(is_ascii_letter(chars@[d]));
        }
    }
    if end - at < 3 || n - end < 2 || chars[end - 1] != '.' {
        return false;
    }
    let dot: usize = end - 1;
    let mut i: usize = at + 1;
    while i < dot
        invariant
            at < i <= dot,
            dot < n,
            n == chars@.len(),
            chars@ == email@,
            forall|a: int, d: int| parts_as_email(chars@, a, d) ==> a == at && d == dot,
            forall|k: int| at < k < i ==> is_domain_char(#[trigger] chars@[k]),
        decreases dot - i,
    {
        if !domain_char(chars[i]) {
            return false;
        }
        i = i + 1;
    }
    assert(parts_as_email(chars@, at as int, dot as int));
    true
}

/// The kinds of character a password must hold.
#[derive(Debug, Clone, Copy, PartialEq, Eq, Structural)]
pub enum CharKind {
    Uppercase,
    Lowercase,
    Digit,
}

impl CharKind {
    /// `c` is of this kind.
    pub open spec fn holds(self, c: char) -> bool {
        match self {
            CharKind::Uppercase => unicode_uppercase(c),
            CharKind::Lowercase => unicode_lowercase(c),
            CharKind::Digit => is_digit(c),
        }
    }

    fn test(&self, c: char) -> (r: bool)
        ensures
            r == self.holds(c),
    {
        match self {
            CharKind::Uppercase => is_uppercase(c),
            CharKind::Lowercase => is_lowercase(c),
            CharKind::Digit => '0' <= c && c <= '9',
        }
    }
}

/// Some character of `text` is of the kind.
pub open spec fn has_kind(text: Seq<char>, kind: CharKind) -> bool {
    exists|i: int| 0 <= i < text.len() && kind.holds(#[trigger] text[i])
}

fn holds_kind(text: &str, kind: CharKind) -> (r: bool)
    ensures
        r == has_kind(text@, kind),
{
    let chars = chars_of(text);
    let mut i: usize = 0;
    while i < chars.len()
        invariant
            chars@ == text@,
            i <= chars.len(),
            forall|k: int| 0 <= k < i ==> !kind.holds(#[trigger] text@[k]),
        decreases chars.len() - i,
    {
        if kind.test(chars[i]) {
            return true;
        }
        i = i + 1;
    }
    false
}

/// What is wrong with a password, the first that applies: too short, no
/// uppercase letter, no lowercase letter, no digit. Nothing where it is
/// strong enough.
pub open spec fn password_fault(password: Seq<char>) -> Option<Seq<char>> {
    if encode_utf8(password).len() < PASSWORD_MIN_BYTES {
        Some("Password must be at least 8 characters long"@)
    } else if !has_kind(password, CharKind::Uppercase) {
        Some("Password must contain at least one uppercase letter"@)
    } else if !has_kind(password, CharKind::Lowercase) {
        Some("Password must contain at least one lowercase letter"@)
    } else if !has_kind(password, CharKind::Digit) {
        Some("Password must contain at least one digit"@)
    } else {
        None
    }
}

/// Validates password strength.
pub fn validate_password(password: &str) -> (r: Result<(), CustomError>)
    ensures
        match password_fault(password@) {
            None => r is Ok,
            Some(message) => r matches Err(e) && e.is(HttpCodeW::BadRequest, message),
        },
{
    if password.as_bytes().len() < PASSWORD_MIN_BYTES {
        return Err(
            CustomError::with(
                HttpCodeW::BadRequest,
                "Password must be at least 8 characters long",
            ),
        );
    }
    if !holds_kind(password, CharKind::Uppercase) {
        return Err(
            CustomError::with(
                HttpCodeW::BadRequest,
                "Password must contain at least one uppercase letter",
            ),
        );
    }
    if !holds_kind(password, CharKind::Lowercase) {
        return Err(
            CustomError::with(
                HttpCodeW::BadRequest,
                "Password must contain at least one lowercase letter",
            ),
        );
    }
    if !holds_kind(password, CharKind::Digit) {
        return Err(
            CustomError::with(HttpCodeW::BadRequest, "Password must contain at least one digit"),
        );
    }
    Ok(())
}

/// Hashes a password for storage, salted and slow.
///
/// Every hash that comes back is one that [`verify_password`] accepts the
/// password against.
pub fn hash_password(password: &str) -> (r: Result<String, CustomError>)
    ensures
        r matches Ok(hash) ==> bcrypt_verdict(password@, hash@) == Some(true),
        r matches Err(e) ==> e.is(HttpCodeW::InternalServerError, "Failed to hash password"@),
{
    match bcrypt_hash(password, PASSWORD_COST) {
        Some(hash) => Ok(hash),
        None => Err(CustomError::with(HttpCodeW::InternalServerError, "Failed to hash password")),
    }
}

/// Checks a password against a stored hash. Fails only where the stored
/// hash is malformed.
pub fn verify_password(password: &str, hash: &str) -> (r: Result<bool, CustomError>)
    ensures
        match bcrypt_verdict(password@, hash@) {
            Some(matches) => r == Ok::<bool, CustomError>(matches),
            None => r matches Err(e) && e.is(
                HttpCodeW::InternalServerError,
                "Malformed password hash"@,
            ),
        },
{
    match bcrypt_verify(password, hash) {
        Some(matches) => Ok(matches),
        None => Err(CustomError::with(HttpCodeW::InternalServerError, "Malformed password hash")),
    }
}

/// The address a request came from, `unknown` where the transport does not
/// tell.
pub fn client_ip(remote: Option<&str>) -> (r: String)
    ensures
        r@ == match remote {
            Some(address) => address@,
            None => "unknown"@,
        },
{
    match remote {
        Some(address) => address.to_owned(),
        None => "unknown".to_owned(),
    }
}

} // verus!
