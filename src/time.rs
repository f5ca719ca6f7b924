use chrono::Datelike;
use vstd::prelude::*;

verus! {

/// A UTC calendar date and time of day, held as plain values.
///
/// The second may read 59 with a nanosecond count of a second or more, which
/// is how a leap second is written.
#[derive(Clone, Copy, Debug, PartialEq, Eq, Structural)]
pub struct Timestamp {
    pub year: i32,
    pub month: u32,
    pub day: u32,
    pub hour: u32,
    pub minute: u32,
    pub second: u32,
    pub nanosecond: u32,
}

/// Month and day of month lie in their ranges.
pub open spec fn date_in_range(month: u32, day: u32) -> bool {
    1 <= month <= 12 && 1 <= day <= 31
}

impl Timestamp {
    /// Every component lies in its range.
    pub open spec fn wf(self) -> bool {
        &&& date_in_range(self.month, self.day)
        &&& self.hour < 24
        &&& self.minute < 60
        &&& self.second < 60
        &&& self.nanosecond < 2_000_000_000
    }

    /// The time of day is exactly the start of the day.
    pub open spec fn is_midnight(self) -> bool {
        self.hour == 0 && self.minute == 0 && self.second == 0 && self.nanosecond == 0
    }

    /// The start of the given calendar day.
    pub fn midnight(year: i32, month: u32, day: u32) -> (r: Timestamp)
        requires
            date_in_range(month, day),
        ensures
            r.year == year,
            r.month == month,
            r.day == day,
            r.is_midnight(),
            r.wf(),
    {
        Timestamp { year, month, day, hour: 0, minute: 0, second: 0, nanosecond: 0 }
    }
}

/// Relies on chrono::Utc::now, read through Datelike::{year, month, day}: the
/// current calendar day in UTC as (year, month, day). chrono documents the
/// month as 1 to 12 and the day of month as 1 to 31. The call panics if the
/// system clock reads a time before 1970.
#[verifier::external_body]
pub(crate) fn utc_today() -> (r: (i32, u32, u32))
    ensures
        date_in_range(r.1, r.2),
{
    let now = chrono::Utc::now();
    (now.year(), now.month(), now.day())
}

} // verus!
