//! Points in time: as a system clock counts them, and as calendar times in UTC.

use vstd::prelude::*;

verus! {

/// A point in time as whole seconds since the Unix epoch, rounded down, and the nanoseconds from
/// there on.
#[derive(Clone, Copy, Debug, PartialEq, Eq)]
pub struct SystemTime {
    pub secs: i64,
    pub nanos: u32,
}

impl SystemTime {
    /// The nanoseconds stay under a second.
    pub open spec fn wf(self) -> bool {
        self.nanos < 1_000_000_000
    }

    /// Nanoseconds since the Unix epoch.
    pub open spec fn since_epoch(self) -> int {
        self.secs * 1_000_000_000 + self.nanos
    }
}

/// The point in time that lies `unix_ms` milliseconds after the Unix epoch, or before it where
/// that is negative.
pub fn system_time_from_unix_ms(unix_ms: i64) -> (r: SystemTime)
    ensures
        r.wf(),
        r.since_epoch() == unix_ms * 1_000_000,
        r.nanos < 1_000_000_000,
        r.secs * 1_000_000_000 + r.nanos == unix_ms * 1_000_000,
{
    if unix_ms >= 0 {
        SystemTime { secs: unix_ms / 1000, nanos: (unix_ms % 1000) as u32 * 1_000_000 }
    } else {
        let before: i64 = -(unix_ms + 1);
        SystemTime {
            secs: -(before / 1000) - 1,
            nanos: (999 - before % 1000) as u32 * 1_000_000,
        }
    }
}

/// The earliest second of a calendar time: the start of the year -262143.
pub const EARLIEST_SECOND: i64 = -8_334_601_228_800;

/// The latest second of a calendar time: the end of the year 262142.
pub const LATEST_SECOND: i64 = 8_210_266_876_799;

/// A calendar time in UTC, as its Unix timestamp.
#[derive(Clone, Copy, Debug, PartialEq, Eq)]
pub struct UtcDateTime {
    pub timestamp: i64,
    pub subsec_nanos: u32,
}

/// Whether a point in time has a calendar time.
pub open spec fn has_calendar_time(time: SystemTime) -> bool {
    EARLIEST_SECOND <= time.secs <= LATEST_SECOND
}

/// Whether the point in time `unix_ms` milliseconds after the Unix epoch has a calendar time.
pub open spec fn ms_has_calendar_time(unix_ms: i64) -> bool {
    EARLIEST_SECOND * 1000 <= unix_ms < LATEST_SECOND * 1000 + 1000
}

/// The calendar time for a Unix timestamp, by `chrono::DateTime::<Utc>::from_timestamp`, taken
/// apart again by `timestamp` and `timestamp_subsec_nanos`.
///
/// Claimed: there is one exactly where the second lies in the years from -262143 to 262142, the
/// range of `chrono::NaiveDate`, and its timestamp and nanoseconds are those that were given.
#[verifier::external_body]
fn chrono_timestamp(secs: i64, nanos: u32) -> (r: Option<(i64, u32)>)
    requires
        nanos < 1_000_000_000,
    ensures
        r == (if EARLIEST_SECOND <= secs <= LATEST_SECOND {
            Some((secs, nanos))
        } else {
            None
        }),
{
    chrono::DateTime::<chrono::Utc>::from_timestamp(secs, nanos).map(
        |t| (t.timestamp(), t.timestamp_subsec_nanos()),
    )
}

/// The calendar time of a point in time, where it has one.
pub fn utc_date_time(time: SystemTime) -> (r: Option<UtcDateTime>)
    requires
        time.wf(),
    ensures
        r is Some <==> has_calendar_time(time),
        r matches Some(t) ==> t.timestamp == time.secs && t.subsec_nanos == time.nanos,
{
    match chrono_timestamp(time.secs, time.nanos) {
        Some((timestamp, subsec_nanos)) => Some(UtcDateTime { timestamp, subsec_nanos }),
        None => None,
    }
}

/// Points in time are ordered as their milliseconds are, and differ where these differ.
pub proof fn law_system_time_keeps_order(a: i64, b: i64, s: SystemTime, t: SystemTime)
    requires
        s.wf(),
        t.wf(),
        s.since_epoch() == a * 1_000_000,
        t.since_epoch() == b * 1_000_000,
    ensures
        a < b <==> s.secs < t.secs || (s.secs == t.secs && s.nanos < t.nanos),
        a == b <==> s == t,
{
}

/// A time in milliseconds has a calendar time exactly where its point in time has one.
pub proof fn lemma_ms_calendar_range(unix_ms: i64, time: SystemTime)
    requires
        time.wf(),
        time.since_epoch() == unix_ms * 1_000_000,
    ensures
        ms_has_calendar_time(unix_ms) <==> has_calendar_time(time),
{
}

/// A point in time is its seconds and nanoseconds since the epoch, and has a calendar time exactly
/// from the start of the year -262143 to the end of the year 262142.
pub proof fn law_points_in_time_count_from_the_epoch(time: SystemTime, unix_ms: i64)
    ensures
        time.since_epoch() == time.secs * 1_000_000_000 + time.nanos,
        time.wf() <==> time.nanos < 1_000_000_000,
        has_calendar_time(time) <==> -8_334_601_228_800 <= time.secs <= 8_210_266_876_799,
        ms_has_calendar_time(unix_ms) <==> -8_334_601_228_800_000 <= unix_ms
            <= 8_210_266_876_799_999,
{
}

} // verus!
