//! Instants as milliseconds since the Unix epoch, and their canonical
//! RFC3339 text form with millisecond fraction.

use std::time::{Duration, SystemTime, UNIX_EPOCH};

use vstd::prelude::*;

verus! {

/// The largest representable instant: the last millisecond of year 9999,
/// the upper bound of the RFC3339 serialization.
pub const MAX_TIMESTAMP_MILLIS: u64 = 253_402_300_799_999;

/// The RFC3339 rendering, with millisecond fraction, of an instant given as
/// milliseconds since the Unix epoch (`2018-02-14T00:28:07.000Z`).
pub uninterp spec fn rfc3339_millis(t: u64) -> Seq<char>;

/// The instant, in milliseconds since the Unix epoch, that a string parses
/// to under RFC3339 rules, or `None` where the string is not a valid
/// RFC3339 timestamp.
pub uninterp spec fn rfc3339_parse_millis(s: Seq<char>) -> Option<u64>;

/// Relies on `humantime::format_rfc3339_millis`: for instants up to year
/// 9999 it renders exactly 24 characters, `YYYY-MM-DDTHH:MM:SS.mmmZ`, out of
/// digits and the separators `-:.TZ`, and `humantime::parse_rfc3339` reads
/// the same instant back.
#[verifier::external_body]
pub(crate) fn to_iso860(timestamp_millis: u64) -> (r: String)
    requires
        timestamp_millis <= MAX_TIMESTAMP_MILLIS,
    ensures
        r@ == rfc3339_millis(timestamp_millis),
        rfc3339_parse_millis(r@) == Some(timestamp_millis),
        r@.len() == 24,
        forall|i: int| 0 <= i < r@.len() ==> r@[i] != '\n',
{
    let instant = UNIX_EPOCH + Duration::from_millis(timestamp_millis);
    humantime::format_rfc3339_millis(instant).to_string()
}

/// Relies on `humantime::parse_rfc3339`: it accepts only UTC RFC3339
/// timestamps between 1970 and year 9999, and its result is a function of
/// the string alone. Sub-millisecond fractions are truncated to the
/// millisecond.
#[verifier::external_body]
pub(crate) fn parse_iso860(text: &str) -> (r: Option<u64>)
    ensures
        r == rfc3339_parse_millis(text@),
        r matches Some(t) ==> t <= MAX_TIMESTAMP_MILLIS,
{
    humantime::parse_rfc3339(text)
        .ok()
        .and_then(|instant| instant.duration_since(UNIX_EPOCH).ok())
        .map(|elapsed| elapsed.as_millis() as u64)
}

/// Relies on `std::time::SystemTime::now`: the wall clock, in milliseconds
/// since the Unix epoch. Nothing is promised of the value; validation that
/// depends on the current time takes it as an explicit argument instead.
#[verifier::external_body]
pub(crate) fn time_now() -> u64 {
    SystemTime::now()
        .duration_since(UNIX_EPOCH)
        .map(|elapsed| elapsed.as_millis() as u64)
        .unwrap_or(0)
}

} // verus!
