//! Timestamps: RFC 3339 text and milliseconds since the Unix epoch, as chrono
//! reads and writes them, and the clock.
use vstd::prelude::*;

verus! {

/// The instant that chrono reads from an RFC 3339 text, in milliseconds since
/// the Unix epoch; `None` where chrono refuses the text.
pub uninterp spec fn rfc3339_millis(text: Seq<char>) -> Option<i64>;

/// The RFC 3339 text (UTC, `Z`, three fractional digits) that chrono writes for
/// an instant given in milliseconds; `None` where the instant lies outside
/// chrono's range.
pub uninterp spec fn millis_rfc3339(millis: i64) -> Option<Seq<char>>;

/// `chrono::DateTime::parse_from_rfc3339`, then `DateTime::timestamp_millis`
/// of the parsed value. The result is named, not described: it is
/// `rfc3339_millis` of the text.
#[verifier::external_body]
pub(crate) fn parse_rfc3339_millis(text: &str) -> (millis: Option<i64>)
    ensures
        millis == rfc3339_millis(text@),
{
    match chrono::DateTime::parse_from_rfc3339(text) {
        Ok(parsed) => Some(parsed.timestamp_millis()),
        Err(_) => None,
    }
}

/// `chrono::DateTime::<Utc>::from_timestamp_millis`, then
/// `DateTime::to_rfc3339_opts(SecondsFormat::Millis, true)`. The result is
/// named, not described: it is `millis_rfc3339` of the instant.
#[verifier::external_body]
pub(crate) fn format_millis_rfc3339(millis: i64) -> (text: Option<String>)
    ensures
        text is Some <==> millis_rfc3339(millis) is Some,
        text is Some ==> millis_rfc3339(millis) == Some(text->Some_0@),
{
    match chrono::DateTime::<chrono::Utc>::from_timestamp_millis(millis) {
        Some(instant) => Some(instant.to_rfc3339_opts(chrono::SecondsFormat::Millis, true)),
        None => None,
    }
}

/// One reading of the clock, in milliseconds since the Unix epoch and as
/// RFC 3339 text with milliseconds.
pub struct ClockReading {
    pub millis: i64,
    pub rfc3339: String,
}

/// `chrono::Local::now`, read with `DateTime::timestamp_millis` and
/// `DateTime::to_rfc3339_opts(SecondsFormat::Millis, true)`. What it returns
/// depends on the time and the machine's time zone: nothing is stated of it.
/// (The text writes the local offset to the minute, so with an offset that has
/// seconds it does not read back as the same instant.)
#[verifier::external_body]
pub(crate) fn local_now() -> (now: ClockReading) {
    let now = chrono::Local::now();
    ClockReading {
        millis: now.timestamp_millis(),
        rfc3339: now.to_rfc3339_opts(chrono::SecondsFormat::Millis, true),
    }
}

/// `chrono::Utc::now`, read with `DateTime::timestamp_millis`. What it returns
/// depends on the time: nothing is stated of it.
#[verifier::external_body]
pub(crate) fn utc_now_millis() -> (now: i64) {
    chrono::Utc::now().timestamp_millis()
}

} // verus!
