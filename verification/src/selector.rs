//! Picking the timetable to consult: the caller's direction and the query
//! moment's weekday name one published timetable.
//!
//! Day classification is a policy: the published data distinguishes either
//! weekday, Saturday and Sunday timetables, or only weekday and weekend ones.
//! The caller states which revision of the data it ships.

use vstd::prelude::*;

use crate::clock::{Timestamp, Weekday};
use crate::text::normalize;
use crate::Error;

verus! {

/// The travel direction of a query.
#[derive(Clone, Copy, Debug, PartialEq, Eq, Structural)]
pub enum Direction {
    East,
    West,
}

/// The bucket a calendar day falls in for timetable purposes.
#[derive(Clone, Copy, Debug, PartialEq, Eq, Structural)]
pub enum DayClass {
    Weekday,
    Saturday,
    Sunday,
    Weekend,
}

/// How finely the published data distinguishes days: three timetables per
/// direction (weekday, Saturday, Sunday) or two (weekday, weekend).
#[derive(Clone, Copy, Debug, PartialEq, Eq, Structural)]
pub enum DayClassPolicy {
    ThreeWay,
    TwoWay,
}

/// The identifier of one published timetable: a direction and a day class.
/// It is computed fresh for every query and never cached.
#[derive(Clone, Copy, Debug, PartialEq, Eq, Structural)]
pub struct TimetableId {
    pub direction: Direction,
    pub day: DayClass,
}

/// The direction a caller-supplied string names, if any: the trimmed,
/// lower-cased form must read exactly "east" or "west".
pub open spec fn spec_parse_direction(s: Seq<char>) -> Option<Direction> {
    if normalize(s) == "east"@ {
        Some(Direction::East)
    } else if normalize(s) == "west"@ {
        Some(Direction::West)
    } else {
        None
    }
}

/// The day class a weekday falls in under the given policy.
pub open spec fn spec_classify(w: Weekday, policy: DayClassPolicy) -> DayClass {
    match policy {
        DayClassPolicy::ThreeWay => match w {
            Weekday::Saturday => DayClass::Saturday,
            Weekday::Sunday => DayClass::Sunday,
            _ => DayClass::Weekday,
        },
        DayClassPolicy::TwoWay => match w {
            Weekday::Saturday => DayClass::Weekend,
            Weekday::Sunday => DayClass::Weekend,
            _ => DayClass::Weekday,
        },
    }
}

/// The timetable a query consults, or no timetable when the direction string
/// is invalid.
pub open spec fn spec_select_timetable_id(
    direction: Seq<char>,
    now: Timestamp,
    policy: DayClassPolicy,
) -> Option<TimetableId> {
    match spec_parse_direction(direction) {
        Some(d) => Some(TimetableId { direction: d, day: spec_classify(now.weekday, policy) }),
        None => None,
    }
}

/// Parse a caller-supplied direction string.
///
/// Fails with [`Error::InvalidDirection`] exactly when the string does not
/// normalize to "east" or "west".
pub fn parse_direction(s: &str) -> (r: Result<Direction, Error>)
    ensures
        match spec_parse_direction(s@) {
            Some(d) => r == Ok::<Direction, Error>(d),
            None => r == Err::<Direction, Error>(Error::InvalidDirection),
        },
{
    if crate::text::eq_normalized(s, "east") {
        Ok(Direction::East)
    } else if crate::text::eq_normalized(s, "west") {
        Ok(Direction::West)
    } else {
        Err(Error::InvalidDirection)
    }
}

/// The day class of a weekday under the given policy.
pub fn classify_day(w: Weekday, policy: DayClassPolicy) -> (r: DayClass)
    ensures
        r == spec_classify(w, policy),
{
    match policy {
        DayClassPolicy::ThreeWay => match w {
            Weekday::Saturday => DayClass::Saturday,
            Weekday::Sunday => DayClass::Sunday,
            _ => DayClass::Weekday,
        },
        DayClassPolicy::TwoWay => match w {
            Weekday::Saturday => DayClass::Weekend,
            Weekday::Sunday => DayClass::Weekend,
            _ => DayClass::Weekday,
        },
    }
}

/// Map (direction, query moment) to the timetable to consult.
///
/// Fails with [`Error::InvalidDirection`] exactly when the direction string
/// does not normalize to "east" or "west".
pub fn select_timetable_id(direction: &str, now: &Timestamp, policy: DayClassPolicy) -> (r: Result<
    TimetableId,
    Error,
>)
    ensures
        match spec_select_timetable_id(direction@, *now, policy) {
            Some(id) => r == Ok::<TimetableId, Error>(id),
            None => r == Err::<TimetableId, Error>(Error::InvalidDirection),
        },
{
    match parse_direction(direction) {
        Ok(d) => Ok(TimetableId { direction: d, day: classify_day(now.weekday, policy) }),
        Err(e) => Err(e),
    }
}

/// The word a direction contributes to a timetable's resource name.
pub open spec fn spec_direction_word(d: Direction) -> Seq<char> {
    match d {
        Direction::East => "east"@,
        Direction::West => "west"@,
    }
}

/// The word a day class contributes to a timetable's resource name.
pub open spec fn spec_day_word(c: DayClass) -> Seq<char> {
    match c {
        DayClass::Weekday => "weekday"@,
        DayClass::Saturday => "saturday"@,
        DayClass::Sunday => "sunday"@,
        DayClass::Weekend => "weekend"@,
    }
}

/// The stable resource name an external loader turns into timetable bytes,
/// for instance "eastbound-saturday-schedule.csv".
pub open spec fn spec_resource_name(id: TimetableId) -> Seq<char> {
    spec_direction_word(id.direction) + "bound-"@ + spec_day_word(id.day) + "-schedule.csv"@
}

impl TimetableId {
    /// Render the identifier as the resource name an external loader
    /// understands.
    pub fn resource_name(&self) -> (r: String)
        ensures
            r@ == spec_resource_name(*self),
    {
        let mut s = String::from_str(
            match self.direction {
                Direction::East => "east",
                Direction::West => "west",
            },
        );
        s.append("bound-");
        s.append(
            match self.day {
                DayClass::Weekday => "weekday",
                DayClass::Saturday => "saturday",
                DayClass::Sunday => "sunday",
                DayClass::Weekend => "weekend",
            },
        );
        s.append("-schedule.csv");
        proof {
            assert(s@ =~= spec_resource_name(*self));
        }
        s
    }
}

} // verus!
