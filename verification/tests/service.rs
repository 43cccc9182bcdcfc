use metro_schedule::clock::{Timestamp, Weekday};
use metro_schedule::next_arrival;
use metro_schedule::selector::{DayClass, DayClassPolicy, Direction, TimetableId};
use metro_schedule::stations::default_alias_table;
use metro_schedule::timetable::{timetable_from_records, TimetableSet};
use metro_schedule::Error;

fn weekday_eastbound_set() -> TimetableSet {
    let records: Vec<Vec<String>> = vec![
        vec!["Central West End Station".to_string(), "Stadium Station".to_string()],
        vec!["8:00AR".to_string(), "8:10AR".to_string()],
        vec!["8:30AB".to_string(), "8:40AB".to_string()],
        vec!["9:00PR".to_string(), "".to_string()],
    ];
    let tt = timetable_from_records(records).unwrap();
    let mut set = TimetableSet::new();
    set.add(TimetableId { direction: Direction::East, day: DayClass::Weekday }, tt);
    set
}

#[test]
fn answers_a_full_query() {
    let aliases = default_alias_table();
    let set = weekday_eastbound_set();
    let now = Timestamp::from_hms(Weekday::Monday, 8, 5, 0);
    let r = next_arrival("CWE", "East", &now, DayClassPolicy::ThreeWay, &aliases, &set).unwrap();
    assert_eq!(r.station, "CWE");
    assert_eq!(r.direction, "East");
    assert_eq!(r.time, "8:30A");
    assert_eq!(r.line, "blue");
}

#[test]
fn repeated_queries_agree() {
    let aliases = default_alias_table();
    let set = weekday_eastbound_set();
    let now = Timestamp::from_hms(Weekday::Monday, 8, 5, 0);
    let a = next_arrival("cwe", "east", &now, DayClassPolicy::ThreeWay, &aliases, &set).unwrap();
    let b = next_arrival("cwe", "east", &now, DayClassPolicy::ThreeWay, &aliases, &set).unwrap();
    assert_eq!(a.station, b.station);
    assert_eq!(a.direction, b.direction);
    assert_eq!(a.time, b.time);
    assert_eq!(a.line, b.line);
}

#[test]
fn aliases_get_the_same_answer() {
    let aliases = default_alias_table();
    let set = weekday_eastbound_set();
    let now = Timestamp::from_hms(Weekday::Monday, 8, 5, 0);
    let a = next_arrival("cwe", "east", &now, DayClassPolicy::ThreeWay, &aliases, &set).unwrap();
    let b = next_arrival("central west end", "east", &now, DayClassPolicy::ThreeWay, &aliases, &set)
        .unwrap();
    assert_eq!(a.time, b.time);
    assert_eq!(a.line, b.line);
}

#[test]
fn invalid_direction_fails_first() {
    let aliases = default_alias_table();
    let set = TimetableSet::new();
    let now = Timestamp::from_hms(Weekday::Monday, 8, 5, 0);
    let e = next_arrival("atlantis", "north", &now, DayClassPolicy::ThreeWay, &aliases, &set)
        .unwrap_err();
    assert_eq!(e, Error::InvalidDirection);
}

#[test]
fn unknown_station_fails_before_any_timetable_is_touched() {
    let aliases = default_alias_table();
    // An empty register: were the loader consulted first, the failure would
    // be a missing timetable, not an unknown station.
    let set = TimetableSet::new();
    let now = Timestamp::from_hms(Weekday::Monday, 8, 5, 0);
    let e = next_arrival("atlantis", "east", &now, DayClassPolicy::ThreeWay, &aliases, &set)
        .unwrap_err();
    assert_eq!(e, Error::UnknownStation);
}

#[test]
fn missing_timetable_is_reported() {
    let aliases = default_alias_table();
    let set = weekday_eastbound_set();
    let now = Timestamp::from_hms(Weekday::Saturday, 8, 5, 0);
    let e = next_arrival("cwe", "east", &now, DayClassPolicy::ThreeWay, &aliases, &set)
        .unwrap_err();
    assert_eq!(e, Error::TimetableUnavailable);
}

#[test]
fn exhausted_timetable_is_no_arrival() {
    let aliases = default_alias_table();
    let set = weekday_eastbound_set();
    let now = Timestamp::from_hms(Weekday::Monday, 23, 30, 0);
    let e = next_arrival("cwe", "east", &now, DayClassPolicy::ThreeWay, &aliases, &set)
        .unwrap_err();
    assert_eq!(e, Error::NoUpcomingArrival);
}

#[test]
fn error_messages_name_each_failure() {
    assert_eq!(Error::InvalidDirection.message(), "direction must be 'east' or 'west'");
    assert_eq!(Error::UnknownStation.message(), "that station is not in the schedule");
    assert_eq!(
        Error::TimetableUnavailable.message(),
        "no timetable is available for that day and direction"
    );
    assert_eq!(Error::NoUpcomingArrival.message(), "failed to find a time from schedule data");
    assert_eq!(Error::MalformedTimeCell.message(), "a schedule cell does not encode a time");
}
