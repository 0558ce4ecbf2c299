//! Time stamps for the telemetry log.
//!
//! The regulator has no calendar clock. Log files are stamped with the time
//! since power-up, shown as a time of day on the first of January of the
//! year 1970 plus the whole years that have passed.

use vstd::prelude::*;

verus! {

/// Seconds in a year of 365 days.
pub const SECONDS_PER_YEAR: u64 = 31_536_000;

/// A time stamp in the form that a FAT file system stores.
#[derive(Copy, Clone, Debug, PartialEq, Eq, Structural)]
pub struct Timestamp {
    pub year_since_1970: u8,
    pub zero_indexed_month: u8,
    pub zero_indexed_day: u8,
    pub hours: u8,
    pub minutes: u8,
    pub seconds: u8,
}

/// Derives time stamps from the time since power-up.
#[derive(Copy, Clone, Debug)]
pub struct EmbassyTimeSource();

impl Default for EmbassyTimeSource {
    fn default() -> (source: EmbassyTimeSource) {
        EmbassyTimeSource()
    }
}

impl EmbassyTimeSource {
    /// The time stamp for `secs` seconds since power-up: the time of day,
    /// always on the first day of the first month, in the year counted in
    /// whole years of 365 days (and, beyond 255 years, from 0 again).
    pub fn get_timestamp(&self, secs: u64) -> (stamp: Timestamp)
        ensures
            stamp.year_since_1970 == secs / SECONDS_PER_YEAR % 256,
            stamp.zero_indexed_month == 0,
            stamp.zero_indexed_day == 0,
            stamp.hours == secs % 86_400 / 3_600,
            stamp.minutes == secs % 3_600 / 60,
            stamp.seconds == secs % 60,
            stamp.hours < 24 && stamp.minutes < 60 && stamp.seconds < 60,
    {
        Timestamp {
            year_since_1970: (secs / SECONDS_PER_YEAR % 256) as u8,
            zero_indexed_month: 0,
            zero_indexed_day: 0,
            hours: (secs % 86_400 / 3_600) as u8,
            minutes: (secs % 3_600 / 60) as u8,
            seconds: (secs % 60) as u8,
        }
    }
}

} // verus!
