//! Points in time as the host states them: RFC 3339 text, or nanoseconds
//! since the Unix epoch.

use chrono::Offset;
use vstd::prelude::*;

verus! {

/// The number of nanoseconds in a second.
pub const NANOS_PER_SEC: i64 = 1_000_000_000;

/// An absolute point in time, together with the offset from UTC that it was
/// stated with.
#[derive(Clone, Copy, Debug, PartialEq, Eq, Structural)]
pub struct Timestamp {
    /// Whole seconds since 1970-01-01T00:00:00Z; negative before it.
    pub secs: i64,
    /// Nanoseconds since the last whole second. During a leap second this
    /// runs on past 999,999,999.
    pub nanos: u32,
    /// Seconds east of UTC of the offset the time was stated with; 0 where
    /// it was stated in UTC.
    pub offset_secs: i32,
}

/// The error of chrono's parsers, carried through unread.
#[verifier::external_type_specification]
#[verifier::external_body]
pub struct ExParseError(chrono::ParseError);

/// What chrono reads out of a text as an RFC 3339 date and time: seconds
/// since the epoch, nanoseconds within the second and the stated offset in
/// seconds east of UTC; `None` where it rejects the text.
pub uninterp spec fn rfc3339_reading(text: Seq<char>) -> Option<(i64, u32, i32)>;

/// The reading of `rfc3339_reading` as a `Timestamp`.
pub open spec fn rfc3339_timestamp(text: Seq<char>) -> Option<Timestamp> {
    match rfc3339_reading(text) {
        Some((secs, nanos, offset_secs)) => Some(Timestamp { secs, nanos, offset_secs }),
        None => None,
    }
}

/// The point in time that lies `nanos` nanoseconds after the epoch, in UTC.
pub open spec fn timestamp_of_nanos(nanos: int) -> Timestamp {
    Timestamp {
        secs: (nanos / NANOS_PER_SEC as int) as i64,
        nanos: (nanos % NANOS_PER_SEC as int) as u32,
        offset_secs: 0,
    }
}

/// The most seconds that a raw count of nanoseconds comes to: those of
/// `u64::MAX` nanoseconds, which end in the year 2554.
pub const MAX_RAW_SECS: i64 = 18_446_744_073;

/// `chrono::DateTime::parse_from_rfc3339`, read out through `timestamp`,
/// `timestamp_subsec_nanos` and the offset's `local_minus_utc`. Nothing is
/// claimed of which texts parse or to what: the result is only given the name
/// `rfc3339_reading`, as a function of the text alone.
#[verifier::external_body]
fn parse_rfc3339(text: &str) -> (res: Result<(i64, u32, i32), chrono::ParseError>)
    ensures
        res.ok() == rfc3339_reading(text@),
{
    match chrono::DateTime::parse_from_rfc3339(text) {
        Ok(t) => Ok((t.timestamp(), t.timestamp_subsec_nanos(), t.offset().local_minus_utc())),
        Err(e) => Err(e),
    }
}

/// `chrono::DateTime::from_timestamp`, read out through `timestamp`,
/// `timestamp_subsec_nanos` and the offset. The claim is made only of what
/// this library hands it: seconds from the epoch up to `MAX_RAW_SECS`,
/// which lies far inside the years that chrono holds, and nanoseconds
/// short of a second. For those chrono gives a time, which reads back as
/// the very seconds and nanoseconds, with the offset of UTC, zero.
#[verifier::external_body]
fn utc_from_timestamp(secs: i64, nanos: u32) -> (res: Option<(i64, u32, i32)>)
    ensures
        0 <= secs <= MAX_RAW_SECS && nanos < NANOS_PER_SEC ==> res == Some((secs, nanos, 0i32)),
{
    match chrono::DateTime::from_timestamp(secs, nanos) {
        Some(t) => Some(
            (t.timestamp(), t.timestamp_subsec_nanos(), t.offset().fix().local_minus_utc()),
        ),
        None => None,
    }
}

impl Timestamp {
    /// Reads an RFC 3339 date and time, keeping the offset it states.
    /// `None` where the text is none.
    pub fn parse_from_rfc3339(text: &str) -> (res: Option<Timestamp>)
        ensures
            res == rfc3339_timestamp(text@),
    {
        match parse_rfc3339(text) {
            Ok((secs, nanos, offset_secs)) => Some(Timestamp { secs, nanos, offset_secs }),
            Err(_) => None,
        }
    }

    /// The point in time that lies a raw count of nanoseconds after the
    /// epoch, in UTC. Every `u64` is in range, and none comes to a time
    /// before the epoch.
    pub fn from_raw_nanos(raw: u64) -> (res: Timestamp)
        ensures
            res == timestamp_of_nanos(raw as int),
            res.secs == raw / 1_000_000_000,
            res.nanos == raw % 1_000_000_000,
            res.offset_secs == 0,
    {
        let secs = (raw / 1_000_000_000) as i64;
        let subsec = (raw % 1_000_000_000) as u32;
        match utc_from_timestamp(secs, subsec) {
            Some((secs, nanos, offset_secs)) => Timestamp { secs, nanos, offset_secs },
            None => unreached(),
        }
    }
}

/// A raw count of nanoseconds comes to the time that lies that many
/// nanoseconds after the epoch: never before it, and a greater count never
/// comes to an earlier time.
pub proof fn lemma_raw_nanos_keep_order(earlier: u64, later: u64)
    requires
        earlier <= later,
    ensures
        timestamp_of_nanos(earlier as int).secs >= 0,
        timestamp_of_nanos(earlier as int).secs * NANOS_PER_SEC + timestamp_of_nanos(
            earlier as int,
        ).nanos == earlier,
        timestamp_of_nanos(earlier as int).secs < timestamp_of_nanos(later as int).secs || (
        timestamp_of_nanos(earlier as int).secs == timestamp_of_nanos(later as int).secs
            && timestamp_of_nanos(earlier as int).nanos <= timestamp_of_nanos(later as int).nanos),
{
}

} // verus!
