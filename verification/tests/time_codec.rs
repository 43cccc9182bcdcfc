use metro_schedule::clock::{Timestamp, Weekday};
use metro_schedule::codec::{is_at_or_after, line_info, parse_time_of_day, schedule_time_is_later_than_now};
use metro_schedule::Error;

#[test]
fn decodes_morning_time() {
    let d = parse_time_of_day("4:15A").unwrap();
    assert_eq!(d.hour, 4);
    assert_eq!(d.minute, 15);
    assert_eq!(d.tag, "");
}

#[test]
fn decodes_afternoon_time() {
    let d = parse_time_of_day("4:15P").unwrap();
    assert_eq!(d.hour, 16);
    assert_eq!(d.minute, 15);
    assert_eq!(d.tag, "");
}

#[test]
fn decodes_noon() {
    let d = parse_time_of_day("12:00P").unwrap();
    assert_eq!(d.hour, 12);
    assert_eq!(d.minute, 0);
}

#[test]
fn decodes_midnight() {
    let d = parse_time_of_day("12:00A").unwrap();
    assert_eq!(d.hour, 0);
    assert_eq!(d.minute, 0);
}

#[test]
fn decodes_two_digit_hour() {
    let d = parse_time_of_day("11:47P").unwrap();
    assert_eq!(d.hour, 23);
    assert_eq!(d.minute, 47);
}

#[test]
fn decodes_tagged_cell() {
    let d = parse_time_of_day("4:15PR").unwrap();
    assert_eq!(d.hour, 16);
    assert_eq!(d.minute, 15);
    assert_eq!(d.tag, "R");
}

#[test]
fn rejects_malformed_cells() {
    for cell in ["", "x", "415A", "4:5A", "4:155P", "4.15A", ":15A", "4:xxA"] {
        assert_eq!(parse_time_of_day(cell).unwrap_err(), Error::MalformedTimeCell, "cell {:?}", cell);
    }
}

#[test]
fn rejects_minute_out_of_range() {
    assert_eq!(parse_time_of_day("4:75A").unwrap_err(), Error::MalformedTimeCell);
}

#[test]
fn equality_counts_as_upcoming() {
    let now = Timestamp::from_hms(Weekday::Monday, 8, 5, 0);
    assert!(is_at_or_after(&now, 8, 5));
    assert!(is_at_or_after(&now, 8, 6));
    assert!(!is_at_or_after(&now, 8, 4));
}

#[test]
fn compares_cells_against_now() {
    let now = Timestamp::from_hms(Weekday::Monday, 8, 5, 0);
    assert!(!schedule_time_is_later_than_now(&now, "8:00A"));
    assert!(schedule_time_is_later_than_now(&now, "8:05A"));
    assert!(schedule_time_is_later_than_now(&now, "8:30A"));
    assert!(schedule_time_is_later_than_now(&now, "9:00P"));
    assert!(!schedule_time_is_later_than_now(&now, "bogus"));
}

#[test]
fn line_info_names_red_line() {
    let (time, line) = line_info(String::from("4:15PR"));
    assert_eq!(time, "4:15P");
    assert_eq!(line, "red");
}

#[test]
fn line_info_names_blue_line() {
    let (time, line) = line_info(String::from("8:30AB"));
    assert_eq!(time, "8:30A");
    assert_eq!(line, "blue");
}

#[test]
fn line_info_keeps_untagged_cell_whole() {
    let (time, line) = line_info(String::from("8:30A"));
    assert_eq!(time, "8:30A");
    assert_eq!(line, "");
}

#[test]
fn line_info_drops_unknown_tag() {
    let (time, line) = line_info(String::from("7:00AX"));
    assert_eq!(time, "7:00A");
    assert_eq!(line, "");
}
