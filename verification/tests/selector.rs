use metro_schedule::clock::{Timestamp, Weekday};
use metro_schedule::selector::{
    classify_day, parse_direction, select_timetable_id, DayClass, DayClassPolicy, Direction,
    TimetableId,
};
use metro_schedule::Error;

#[test]
fn direction_spellings_select_one_timetable() {
    let now = Timestamp::from_hms(Weekday::Tuesday, 9, 0, 0);
    let a = select_timetable_id("east", &now, DayClassPolicy::ThreeWay).unwrap();
    let b = select_timetable_id("EAST", &now, DayClassPolicy::ThreeWay).unwrap();
    let c = select_timetable_id("East", &now, DayClassPolicy::ThreeWay).unwrap();
    assert_eq!(a, b);
    assert_eq!(b, c);
    assert_eq!(a, TimetableId { direction: Direction::East, day: DayClass::Weekday });
}

#[test]
fn other_directions_are_rejected() {
    let now = Timestamp::from_hms(Weekday::Tuesday, 9, 0, 0);
    for d in ["north", "", "eastward", "east west"] {
        assert_eq!(
            select_timetable_id(d, &now, DayClassPolicy::ThreeWay).unwrap_err(),
            Error::InvalidDirection,
            "direction {:?}",
            d
        );
    }
}

#[test]
fn west_is_a_direction_too() {
    assert_eq!(parse_direction("west").unwrap(), Direction::West);
    assert_eq!(parse_direction(" West ").unwrap(), Direction::West);
}

#[test]
fn three_way_policy_distinguishes_weekend_days() {
    assert_eq!(classify_day(Weekday::Friday, DayClassPolicy::ThreeWay), DayClass::Weekday);
    assert_eq!(classify_day(Weekday::Saturday, DayClassPolicy::ThreeWay), DayClass::Saturday);
    assert_eq!(classify_day(Weekday::Sunday, DayClassPolicy::ThreeWay), DayClass::Sunday);
}

#[test]
fn two_way_policy_buckets_the_weekend() {
    assert_eq!(classify_day(Weekday::Friday, DayClassPolicy::TwoWay), DayClass::Weekday);
    assert_eq!(classify_day(Weekday::Saturday, DayClassPolicy::TwoWay), DayClass::Weekend);
    assert_eq!(classify_day(Weekday::Sunday, DayClassPolicy::TwoWay), DayClass::Weekend);
}

#[test]
fn resource_names_compose_direction_and_day() {
    let id = TimetableId { direction: Direction::East, day: DayClass::Saturday };
    assert_eq!(id.resource_name(), "eastbound-saturday-schedule.csv");
    let id = TimetableId { direction: Direction::West, day: DayClass::Weekday };
    assert_eq!(id.resource_name(), "westbound-weekday-schedule.csv");
    let id = TimetableId { direction: Direction::West, day: DayClass::Weekend };
    assert_eq!(id.resource_name(), "westbound-weekend-schedule.csv");
}
