//! The model of the query moment: a day of the week and a wall-clock
//! time-of-day in seconds. The caller's clock supplies both; nothing in the
//! library reads a clock itself.

use vstd::prelude::*;

verus! {

/// Seconds in one calendar day.
pub const SECS_PER_DAY: u32 = 86400;

/// A day of the week, as the caller's local calendar reports it.
#[derive(Clone, Copy, Debug, PartialEq, Eq, Structural)]
pub enum Weekday {
    Monday,
    Tuesday,
    Wednesday,
    Thursday,
    Friday,
    Saturday,
    Sunday,
}

/// The instant a query is asked at, reduced to what the lookup reads:
/// the weekday (to pick the timetable) and the time-of-day (to compare
/// against scheduled times).
#[derive(Clone, Copy, Debug, PartialEq, Eq, Structural)]
pub struct Timestamp {
    /// Day of the week in the caller's local calendar.
    pub weekday: Weekday,
    /// Seconds since local midnight, below `SECS_PER_DAY`.
    pub secs_of_day: u32,
}

impl Timestamp {
    /// A well-formed moment lies within one day.
    pub open spec fn wf(self) -> bool {
        self.secs_of_day < SECS_PER_DAY
    }

    /// Build a moment from a wall-clock reading.
    pub fn from_hms(weekday: Weekday, hour: u32, minute: u32, second: u32) -> (r: Timestamp)
        requires
            hour < 24,
            minute < 60,
            second < 60,
        ensures
            r.weekday == weekday,
            r.secs_of_day == hour * 3600 + minute * 60 + second,
            r.wf(),
    {
        Timestamp { weekday, secs_of_day: hour * 3600 + minute * 60 + second }
    }
}

} // verus!
