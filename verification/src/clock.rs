//! Calendar time: what the machine's time zone makes of a timestamp, the
//! current time, and wall-clock text.

use chrono::{Datelike, Local, LocalResult, NaiveTime, TimeZone, Timelike, Utc};
use vstd::prelude::*;

verus! {

/// Seconds in a day.
pub const SECONDS_PER_DAY: i64 = 86_400;

/// A moment as the machine's time zone shows it.
#[derive(Debug, Clone, Copy, PartialEq, Eq, Structural)]
pub struct LocalDateTime {
    pub year: i32,
    pub month: u32,
    pub day: u32,
    pub hour: u32,
    pub minute: u32,
    pub second: u32,
}

impl LocalDateTime {
    /// Whether the fields are those of a calendar date and a time of day.
    pub open spec fn wf(self) -> bool {
        &&& 1 <= self.month <= 12
        &&& 1 <= self.day <= 31
        &&& self.hour < 24
        &&& self.minute < 60
        &&& self.second < 60
    }
}

/// Whether chrono can represent the timestamp as a date and time.
pub uninterp spec fn spec_has_local_time(timestamp: int) -> bool;

/// The seconds past midnight of the time that chrono reads from wall-clock
/// text in the form `%H:%M`, if it reads one.
pub uninterp spec fn spec_parse_clock(text: Seq<char>) -> Option<u32>;

/// `chrono::Local.timestamp_opt(timestamp, 0)`, taken apart with chrono's
/// `year`, `month`, `day`, `hour`, `minute` and `second`.
///
/// Trusted: chrono returns `Single` unless the number of seconds is out of
/// its range, which depends on the timestamp alone, and documents the ranges
/// of the month (1 to 12), the day (1 to 31), the hour (0 to 23), the minute
/// and the second (0 to 59). The fields themselves depend on the machine's
/// time zone, so nothing more is said of them. chrono treats the conversion
/// from UTC as one that cannot fail; it panics where the system's time zone
/// data cannot be used.
#[verifier::external_body]
pub(crate) fn local_date_time(timestamp: i64) -> (local: Option<LocalDateTime>)
    ensures
        local.is_some() == spec_has_local_time(timestamp as int),
        local matches Some(t) ==> t.wf(),
{
    match Local.timestamp_opt(timestamp, 0) {
        LocalResult::Single(t) => Some(
            LocalDateTime {
                year: t.year(),
                month: t.month(),
                day: t.day(),
                hour: t.hour(),
                minute: t.minute(),
                second: t.second(),
            },
        ),
        LocalResult::Ambiguous(_, _) => None,
        LocalResult::None => None,
    }
}

/// The largest timestamp that a chrono `DateTime` can have is below this.
pub const TIMESTAMP_LIMIT: i64 = 185_542_587_187_200;

/// `chrono::Utc::now().timestamp()`: the system clock, in seconds since the
/// unix epoch.
///
/// Trusted: chrono reads the clock as an unsigned number of seconds since the
/// epoch (it panics where the clock is set before it), and the timestamp of a
/// `DateTime` is a day count held in an `i32`, times 86 400, plus the seconds
/// of the day: so the result is not negative and below 2^31 * 86 400.
#[verifier::external_body]
pub(crate) fn utc_now() -> (now: i64)
    ensures
        0 <= now < TIMESTAMP_LIMIT,
{
    Utc::now().timestamp()
}

/// `chrono::NaiveTime::parse_from_str(text, "%H:%M")`, and of the time read
/// chrono's `num_seconds_from_midnight`.
///
/// Trusted: the result depends on the text alone, and chrono documents that
/// the seconds past midnight are between 0 and 86 399.
#[verifier::external_body]
pub(crate) fn parse_clock(text: &str) -> (seconds: Option<u32>)
    ensures
        seconds == spec_parse_clock(text@),
        seconds matches Some(s) ==> s < SECONDS_PER_DAY,
{
    match NaiveTime::parse_from_str(text, "%H:%M") {
        Ok(time) => Some(time.num_seconds_from_midnight()),
        Err(_) => None,
    }
}

/// The timestamp at which the UTC calendar day of `now` begins.
pub open spec fn spec_day_start(now: int) -> int {
    now - now % (SECONDS_PER_DAY as int)
}

/// The time that a relay's status stands for: its unix time where it has
/// one; else its wall-clock time on the UTC calendar day of `now`, where
/// `clock` holds that time in seconds past midnight; else `now`.
pub open spec fn spec_device_time(unixtime: Option<i64>, clock: Option<u32>, now: int) -> int {
    match unixtime {
        Some(t) => t as int,
        None => match clock {
            Some(seconds) => spec_day_start(now) + seconds,
            None => now,
        },
    }
}

/// Whether the time that a status stands for can be computed in 64 bits.
pub open spec fn device_time_fits(unixtime: Option<i64>, clock: Option<u32>, now: int) -> bool {
    unixtime is None && clock is Some ==> i64::MIN <= spec_day_start(now) && spec_day_start(now)
        + clock->0 <= i64::MAX
}

/// The time that a relay's status stands for, given what was read from its
/// wall-clock text and the current time.
pub fn device_time(unixtime: Option<i64>, clock: Option<u32>, now: i64) -> (time: i64)
    requires
        device_time_fits(unixtime, clock, now as int),
    ensures
        time == spec_device_time(unixtime, clock, now as int),
{
    match unixtime {
        Some(t) => t,
        None => match clock {
            Some(seconds) => {
                let past: i64 = match now.checked_rem_euclid(SECONDS_PER_DAY) {
                    Some(r) => r,
                    None => 0,
                };
                now - past + (seconds as i64)
            },
            None => now,
        },
    }
}

} // verus!
