use vstd::prelude::*;

verus! {

/// The last instant the calendar of `chrono` can hold, in seconds since the
/// epoch: the end of the year 262142.
pub const LAST_INSTANT: i64 = 8_210_266_876_799;

/// [`chrono::Utc::now`] followed by `timestamp`: the current instant in
/// whole seconds since the epoch.
///
/// The call reads the system clock as a duration since the epoch and builds
/// a date from it, so what it returns is not negative and within the
/// calendar. Two calls may differ.
#[verifier::external_body]
pub(crate) fn utc_now_seconds() -> (r: i64)
    ensures
        0 <= r <= LAST_INSTANT,
{
    chrono::Utc::now().timestamp()
}

/// What `chrono::NaiveDateTime::parse_from_str` reads from `text` under
/// `format`, taken as UTC, in seconds since the epoch; `None` where it
/// reports an error.
pub uninterp spec fn naive_datetime_parsed(text: Seq<char>, format: Seq<char>) -> Option<i64>;

/// [`chrono::NaiveDateTime::parse_from_str`]. The result depends on the two
/// strings alone.
#[verifier::external_body]
pub(crate) fn parse_naive_datetime(text: &str, format: &str) -> (r: Option<i64>)
    ensures
        r == naive_datetime_parsed(text@, format@),
{
    match chrono::NaiveDateTime::parse_from_str(text, format) {
        Ok(t) => Some(t.and_utc().timestamp()),
        Err(_) => None,
    }
}

/// The instant `chrono::DateTime::parse_from_rfc3339` reads from `text`,
/// in seconds since the epoch; `None` where it reports an error.
pub uninterp spec fn rfc3339_parsed(text: Seq<char>) -> Option<i64>;

/// [`chrono::DateTime::parse_from_rfc3339`]. The result depends on the
/// string alone.
#[verifier::external_body]
pub(crate) fn parse_rfc3339(text: &str) -> (r: Option<i64>)
    ensures
        r == rfc3339_parsed(text@),
{
    match chrono::DateTime::parse_from_rfc3339(text) {
        Ok(t) => Some(t.timestamp()),
        Err(_) => None,
    }
}

/// Midnight, UTC, of the day `chrono::NaiveDate::parse_from_str` reads from
/// `text` under `format`, in seconds since the epoch; `None` where it
/// reports an error.
pub uninterp spec fn naive_date_parsed(text: Seq<char>, format: Seq<char>) -> Option<i64>;

/// [`chrono::NaiveDate::parse_from_str`], the day taken at midnight. The
/// result depends on the two strings alone.
#[verifier::external_body]
pub(crate) fn parse_naive_date(text: &str, format: &str) -> (r: Option<i64>)
    ensures
        r == naive_date_parsed(text@, format@),
{
    match chrono::NaiveDate::parse_from_str(text, format) {
        Ok(d) => Some(d.and_time(chrono::NaiveTime::MIN).and_utc().timestamp()),
        Err(_) => None,
    }
}

} // verus!
