//! Instants as the services exchange them: seconds and nanoseconds since
//! the Unix epoch, and their RFC 3339 form.

use chrono::TimeZone;
use vstd::prelude::*;

verus! {

/// An instant: whole seconds since 1970-01-01T00:00:00Z and the
/// nanoseconds within that second.
#[derive(Clone, Copy, Debug, PartialEq, Eq, Structural)]
pub struct Timestamp {
    pub seconds: i64,
    pub nanos: i32,
}

/// The RFC 3339 text that chrono writes for the UTC instant
/// `seconds`/`nanos`, or `None` where chrono rejects the pair.
pub uninterp spec fn utc_rfc3339(seconds: i64, nanos: u32) -> Option<Seq<char>>;

/// Trusted: `chrono::DateTime::to_rfc3339` on the UTC instant that
/// `chrono::TimeZone::timestamp_opt` makes of the arguments (on `Utc` it
/// gives one instant or none). The text is named `utc_rfc3339`; chrono's source
/// (`NaiveTime::from_num_seconds_from_midnight_opt`) rejects any nanosecond
/// count from two billion on, which the contract states. The calendar
/// arithmetic behind the text and the exact range of seconds that chrono
/// accepts are left unsaid.
#[verifier::external_body]
pub(crate) fn rfc3339_at(seconds: i64, nanos: u32) -> (res: Option<String>)
    ensures
        match res {
            Some(text) => utc_rfc3339(seconds, nanos) == Some(text@),
            None => utc_rfc3339(seconds, nanos) is None,
        },
        nanos >= 2_000_000_000 ==> res is None,
{
    match chrono::Utc.timestamp_opt(seconds, nanos) {
        chrono::LocalResult::Single(instant) => Some(instant.to_rfc3339()),
        chrono::LocalResult::Ambiguous(_, _) => None,
        chrono::LocalResult::None => None,
    }
}

/// The nanoseconds of `t` as chrono receives them (`as u32`, which wraps
/// negative counts).
pub open spec fn nanos_for_chrono(t: Timestamp) -> u32 {
    t.nanos as u32
}

/// chrono accepts the instant `t`.
pub open spec fn renders(t: Timestamp) -> bool {
    utc_rfc3339(t.seconds, nanos_for_chrono(t)) is Some
}

/// The RFC 3339 text of `t` (meaningful where `renders(t)`).
pub open spec fn rfc3339_text(t: Timestamp) -> Seq<char> {
    utc_rfc3339(t.seconds, nanos_for_chrono(t)).unwrap()
}

/// The RFC 3339 text of `t` in UTC, or `None` where chrono rejects it.
pub fn ts_to_rfc3339(t: Timestamp) -> (res: Option<String>)
    ensures
        res is Some <==> renders(t),
        res matches Some(text) ==> text@ == rfc3339_text(t),
{
    rfc3339_at(t.seconds, t.nanos as u32)
}

/// The earliest second that chrono represents (the first day of its year
/// `MIN_YEAR`, -262143, in UTC).
pub open spec fn earliest_utc_second() -> int {
    -8_334_601_228_800
}

/// The latest second that chrono represents (the last second of its year
/// `MAX_YEAR`, 262142, in UTC).
pub open spec fn latest_utc_second() -> int {
    8_210_266_876_799
}

/// Trusted: `chrono::Utc::now()`, read as seconds (`timestamp`) and
/// nanoseconds (`timestamp_subsec_nanos`). chrono's `Utc::now` takes the
/// system time since the Unix epoch (it panics before the epoch) and builds
/// the instant with `DateTime::from_timestamp(..).unwrap()`, so the seconds
/// are not negative and lie within chrono's range, and the nanoseconds are
/// below one billion; the contract states that and nothing of which instant
/// it is.
#[verifier::external_body]
pub(crate) fn utc_now() -> (now: Timestamp)
    ensures
        0 <= now.seconds <= latest_utc_second(),
        0 <= now.nanos < 1_000_000_000,
{
    let instant = chrono::Utc::now();
    Timestamp { seconds: instant.timestamp(), nanos: instant.timestamp_subsec_nanos() as i32 }
}

} // verus!
