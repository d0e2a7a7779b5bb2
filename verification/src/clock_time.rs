//! The displayed timestamp: wall-clock time at second resolution together
//! with its calendar date, under a fixed offset chosen by the host.
//!
//! The host reads the current time, truncates it to the second and hands it
//! over as plain values; two timestamps are the same exactly when every field
//! agrees, so comparing them compares at whole-second granularity.

use vstd::prelude::*;

verus! {

/// A wall-clock timestamp at second resolution, with its calendar date.
#[derive(Clone, Copy, Debug, PartialEq, Eq, Structural)]
pub struct ClockTime {
    /// Hour of the day, `0 ..= 23`.
    pub hour: u8,
    /// Minute of the hour, `0 ..= 59`.
    pub minute: u8,
    /// Second of the minute, `0 ..= 59`.
    pub second: u8,
    /// Day of the month, `1 ..= 31`.
    pub day: u8,
    /// Month of the year, `1 ..= 12`.
    pub month: u8,
    /// Year, at most `9999` so the date label holds four digits.
    pub year: u16,
}

impl ClockTime {
    /// Every field lies in its calendar range.
    pub open spec fn wf(self) -> bool {
        &&& self.hour < 24
        &&& self.minute < 60
        &&& self.second < 60
        &&& 1 <= self.day <= 31
        &&& 1 <= self.month <= 12
        &&& self.year <= 9999
    }

    /// Builds a timestamp from its fields.
    pub fn new(hour: u8, minute: u8, second: u8, day: u8, month: u8, year: u16) -> (t: ClockTime)
        requires
            hour < 24,
            minute < 60,
            second < 60,
            1 <= day <= 31,
            1 <= month <= 12,
            year <= 9999,
        ensures
            t == (ClockTime { hour, minute, second, day, month, year }),
            t.wf(),
    {
        ClockTime { hour, minute, second, day, month, year }
    }
}

} // verus!
