//! Instants as UNIX seconds and nanoseconds, normalized with `chrono`.

use vstd::prelude::*;

verus! {

/// An instant: whole seconds since the UNIX epoch and the nanoseconds since
/// the last whole second (above 999,999,999 only within a leap second).
#[derive(Debug, Clone, Copy, PartialEq, Eq, Structural)]
pub struct Timestamp {
    pub seconds: i64,
    pub nanoseconds: u32,
}

/// UNIX second of -262143-01-01T00:00:00Z, the first instant `chrono`
/// represents.
pub const EARLIEST_REPRESENTABLE_SECOND: i64 = -8_334_601_228_800i64;

/// UNIX second of +262142-12-31T23:59:59Z, the last second `chrono`
/// represents.
pub const LATEST_REPRESENTABLE_SECOND: i64 = 8_210_266_876_799i64;

/// The instants `chrono::DateTime::from_timestamp` accepts: seconds within
/// the representable range and a nanosecond part below two seconds that
/// exceeds one second only within a leap second (`seconds % 60 == 59`).
pub open spec fn chrono_representable(seconds: i64, nanoseconds: u32) -> bool {
    &&& EARLIEST_REPRESENTABLE_SECOND <= seconds <= LATEST_REPRESENTABLE_SECOND
    &&& nanoseconds < 2_000_000_000
    &&& (nanoseconds >= 1_000_000_000 ==> (seconds as int) % 60 == 59)
}

/// Builds an instant with `chrono::DateTime::<Utc>::from_timestamp` and
/// reads it back with `timestamp` and `timestamp_subsec_nanos`.
///
/// Trusted: `Some` exactly on the representable instants (the source checks
/// the day number against the supported years -262143..=262142 and the
/// nanosecond part as stated), and the instant read back is the one given
/// (the documented round trip).
#[verifier::external_body]
fn datetime_from_timestamp(seconds: i64, nanoseconds: u32) -> (instant: Option<Timestamp>)
    ensures
        instant == (if chrono_representable(seconds, nanoseconds) {
            Some(Timestamp { seconds, nanoseconds })
        } else {
            None
        }),
{
    match chrono::DateTime::from_timestamp(seconds, nanoseconds) {
        Some(dt) => Some(Timestamp { seconds: dt.timestamp(), nanoseconds: dt.timestamp_subsec_nanos() }),
        None => None,
    }
}

/// Reads the clock with `chrono::Utc::now`.
///
/// Trusted: the instant is one that `chrono` represents. Nothing is said of
/// which instant it is.
#[verifier::external_body]
pub(crate) fn current_time() -> (now: Timestamp)
    ensures
        chrono_representable(now.seconds, now.nanoseconds),
{
    let now = chrono::Utc::now();
    Timestamp { seconds: now.timestamp(), nanoseconds: now.timestamp_subsec_nanos() }
}

/// The nanosecond part cut down to whole microseconds.
pub open spec fn microsecond_part(nanoseconds: u32) -> u32 {
    ((nanoseconds / 1000) * 1000) as u32
}

/// An instant at microsecond precision, as events record them; an instant
/// that `chrono` cannot represent at that precision is kept as it is.
pub open spec fn normalized(instant: Timestamp) -> Timestamp {
    if chrono_representable(instant.seconds, microsecond_part(instant.nanoseconds)) {
        Timestamp { seconds: instant.seconds, nanoseconds: microsecond_part(instant.nanoseconds) }
    } else {
        instant
    }
}

/// An instant as events record it: representable, at microsecond precision.
pub open spec fn is_event_instant(instant: Timestamp) -> bool {
    &&& chrono_representable(instant.seconds, instant.nanoseconds)
    &&& instant.nanoseconds % 1000 == 0
}

/// Truncates an instant to microsecond precision.
pub(crate) fn normalize_timestamp(timestamp: Timestamp) -> (normalized_instant: Timestamp)
    ensures
        normalized_instant == normalized(timestamp),
        chrono_representable(timestamp.seconds, timestamp.nanoseconds) ==> normalized_instant == (Timestamp {
            seconds: timestamp.seconds,
            nanoseconds: microsecond_part(timestamp.nanoseconds),
        }),
        chrono_representable(timestamp.seconds, timestamp.nanoseconds) ==> is_event_instant(normalized_instant),
{
    let microseconds = (timestamp.nanoseconds / 1_000) * 1_000;
    match datetime_from_timestamp(timestamp.seconds, microseconds) {
        Some(normalized_instant) => normalized_instant,
        None => timestamp,
    }
}

} // verus!
