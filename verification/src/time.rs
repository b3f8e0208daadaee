//! Observation-time reconstruction and the staleness check.
//!
//! A report carries only a day/hour/minute triple.  The absolute
//! observation time is reconstructed against a reference instant by
//! borrowing the reference's year and month — or the month before,
//! when the report's day exceeds the reference's day of month.  A
//! report is stale when its reconstructed time does not name a valid
//! calendar date, or lies more than two hours before the reference.

use vstd::prelude::*;
use chrono::TimeZone;

verus! {

/// The observation time carried by a report: day of month, hour and
/// minute; the year and month are supplied externally at resolution.
#[derive(Clone, Copy, PartialEq, Eq, Structural, Debug)]
pub struct ReportTime {
    pub day: u8,
    pub hour: u8,
    pub minute: u8,
}

impl ReportTime {
    /// Field ranges of a decoded report time.
    pub open spec fn wf(self) -> bool {
        1 <= self.day <= 31 && self.hour <= 23 && self.minute <= 59
    }
}

/// A leap year of the proleptic Gregorian calendar.
pub open spec fn is_leap_year(y: int) -> bool {
    (y % 4 == 0 && y % 100 != 0) || y % 400 == 0
}

/// The number of days in a month of the proleptic Gregorian calendar.
pub open spec fn days_in_month(y: int, m: int) -> int {
    if m == 2 {
        if is_leap_year(y) {
            29
        } else {
            28
        }
    } else if m == 4 || m == 6 || m == 9 || m == 11 {
        30
    } else {
        31
    }
}

/// A valid calendar date and time of day in the proleptic Gregorian
/// calendar.
pub open spec fn valid_ymd_hms(y: int, m: int, d: int, h: int, mi: int, s: int) -> bool {
    &&& 1 <= m <= 12
    &&& 1 <= d <= days_in_month(y, m)
    &&& 0 <= h < 24
    &&& 0 <= mi < 60
    &&& 0 <= s < 60
}

/// Seconds since 1970-01-01T00:00:00 UTC of the given valid calendar
/// date and time of day, as the `chrono` crate computes it.
pub uninterp spec fn epoch_seconds_of(y: int, m: int, d: int, h: int, mi: int, s: int) -> int;

/// Relies on chrono's `TimeZone::with_ymd_and_hms` on `Utc` and on
/// `DateTime::timestamp`.  The former yields a single datetime exactly
/// when the fields name a valid proleptic Gregorian calendar date and
/// time of day (every year up to 9999 is within chrono's range); the
/// latter returns the count of non-leap seconds since the Unix epoch,
/// a function of the calendar fields alone.
#[verifier::external_body]
fn utc_epoch_seconds(y: i32, m: u8, d: u8, h: u8, mi: u8, s: u8) -> (r: Option<i64>)
    requires
        0 <= y <= 9999,
    ensures
        r is Some <==> valid_ymd_hms(y as int, m as int, d as int, h as int, mi as int, s as int),
        r is Some ==> r->0 == epoch_seconds_of(
            y as int,
            m as int,
            d as int,
            h as int,
            mi as int,
            s as int,
        ),
{
    chrono::Utc.with_ymd_and_hms(y, m as u32, d as u32, h as u32, mi as u32, s as u32).single().map(
        |dt| dt.timestamp(),
    )
}

/// A reference instant in UTC, held as plain calendar fields.
#[derive(Clone, Copy, PartialEq, Eq, Structural, Debug)]
pub struct UtcInstant {
    pub year: i32,
    pub month: u8,
    pub day: u8,
    pub hour: u8,
    pub minute: u8,
    pub second: u8,
}

impl UtcInstant {
    /// A valid calendar date and time of day in a supported year.
    pub open spec fn wf(self) -> bool {
        &&& 1 <= self.year <= 9999
        &&& valid_ymd_hms(
            self.year as int,
            self.month as int,
            self.day as int,
            self.hour as int,
            self.minute as int,
            self.second as int,
        )
    }

    /// Builds an instant from calendar fields, accepting exactly the
    /// valid dates of the supported years.
    pub fn new(year: i32, month: u8, day: u8, hour: u8, minute: u8, second: u8) -> (r: Option<
        UtcInstant,
    >)
        ensures
            match r {
                Some(t) => {
                    &&& t == (UtcInstant { year, month, day, hour, minute, second })
                    &&& t.wf()
                },
                None => !(1 <= year <= 9999 && valid_ymd_hms(
                    year as int,
                    month as int,
                    day as int,
                    hour as int,
                    minute as int,
                    second as int,
                )),
            },
    {
        if year < 1 || year > 9999 || month < 1 || month > 12 {
            return None;
        }
        if day < 1 || day > month_days(year, month) || hour > 23 || minute > 59 || second > 59 {
            return None;
        }
        Some(UtcInstant { year, month, day, hour, minute, second })
    }

    /// The instant's own day, hour and minute, used as the fallback
    /// report time when a time group cannot be decoded.
    pub fn report_time(&self) -> (r: ReportTime)
        requires
            self.wf(),
        ensures
            r == (ReportTime { day: self.day, hour: self.hour, minute: self.minute }),
            r.wf(),
    {
        ReportTime { day: self.day, hour: self.hour, minute: self.minute }
    }
}

/// Whether `y` is a leap year, decided in executable code.
pub fn leap_year(y: i32) -> (r: bool)
    requires
        y >= 0,
    ensures
        r == is_leap_year(y as int),
{
    (y % 4 == 0 && y % 100 != 0) || y % 400 == 0
}

/// The number of days in the given month, decided in executable code.
pub fn month_days(y: i32, m: u8) -> (r: u8)
    requires
        y >= 0,
        1 <= m <= 12,
    ensures
        r == days_in_month(y as int, m as int),
{
    if m == 2 {
        if leap_year(y) {
            29
        } else {
            28
        }
    } else if m == 4 || m == 6 || m == 9 || m == 11 {
        30
    } else {
        31
    }
}

/// The year and month of the reconstructed observation time: the
/// reference's own, or the month before when the report's day of
/// month exceeds the reference's.
pub open spec fn spec_reconstruct_ym(rt: ReportTime, now: UtcInstant) -> (int, int) {
    if rt.day > now.day {
        if now.month == 1 {
            (now.year - 1, 12)
        } else {
            (now.year as int, now.month - 1)
        }
    } else {
        (now.year as int, now.month as int)
    }
}

/// A reconstructed observation time, as plain calendar fields; the
/// combination need not name a valid calendar date.
#[derive(Clone, Copy, PartialEq, Eq, Structural, Debug)]
pub struct TimeFields {
    pub year: i32,
    pub month: u8,
    pub day: u8,
    pub hour: u8,
    pub minute: u8,
}

/// Reconstructs the absolute observation time of a report against the
/// reference instant, rolling back to the previous month (and year,
/// across January) when the report's day exceeds the reference's.
pub fn reconstruct(rt: &ReportTime, now: &UtcInstant) -> (r: TimeFields)
    requires
        now.wf(),
    ensures
        (r.year as int, r.month as int) == spec_reconstruct_ym(*rt, *now),
        r.day == rt.day,
        r.hour == rt.hour,
        r.minute == rt.minute,
{
    if rt.day > now.day {
        if now.month == 1 {
            TimeFields { year: now.year - 1, month: 12, day: rt.day, hour: rt.hour, minute: rt.minute }
        } else {
            TimeFields {
                year: now.year,
                month: now.month - 1,
                day: rt.day,
                hour: rt.hour,
                minute: rt.minute,
            }
        }
    } else {
        TimeFields {
            year: now.year,
            month: now.month,
            day: rt.day,
            hour: rt.hour,
            minute: rt.minute,
        }
    }
}

/// A report is stale when its reconstructed observation time does not
/// name a valid calendar date, or lies more than two hours before the
/// reference instant.
pub open spec fn spec_is_stale(rt: ReportTime, now: UtcInstant) -> bool {
    let (y, m) = spec_reconstruct_ym(rt, now);
    if valid_ymd_hms(y, m, rt.day as int, rt.hour as int, rt.minute as int, 0) {
        epoch_seconds_of(
            now.year as int,
            now.month as int,
            now.day as int,
            now.hour as int,
            now.minute as int,
            now.second as int,
        ) - 7200 > epoch_seconds_of(y, m, rt.day as int, rt.hour as int, rt.minute as int, 0)
    } else {
        true
    }
}

/// Decides staleness of a report time against the reference instant.
pub fn is_stale(rt: &ReportTime, now: &UtcInstant) -> (r: bool)
    requires
        now.wf(),
    ensures
        r == spec_is_stale(*rt, *now),
{
    let f = reconstruct(rt, now);
    match utc_epoch_seconds(f.year, f.month, f.day, f.hour, f.minute, 0) {
        None => true,
        Some(observed) => {
            match utc_epoch_seconds(now.year, now.month, now.day, now.hour, now.minute, now.second) {
                None => {
                    proof {
                        assert(false);
                    }
                    true
                },
                Some(reference) => (reference as i128) - 7200 > (observed as i128),
            }
        },
    }
}

} // verus!
