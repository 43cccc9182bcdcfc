use metro_schedule::clock::{Timestamp, Weekday};
use metro_schedule::stations::StationKey;
use metro_schedule::timetable::{find_next_arrival, timetable_from_records, Timetable};
use metro_schedule::Error;

fn table(records: &[&[&str]]) -> Timetable {
    let records: Vec<Vec<String>> = records
        .iter()
        .map(|row| row.iter().map(|cell| cell.to_string()).collect())
        .collect();
    timetable_from_records(records).unwrap()
}

fn key(column: &str) -> StationKey {
    StationKey { column: String::from(column) }
}

#[test]
fn first_qualifying_row_wins() {
    let tt = table(&[&["X"], &["8:00A"], &["8:30A"], &["9:00P"]]);
    let now = Timestamp::from_hms(Weekday::Monday, 8, 5, 0);
    let (time, line) = find_next_arrival(&tt, &key("X"), &now).unwrap();
    assert_eq!(time, "8:30A");
    assert_eq!(line, "");
}

#[test]
fn missing_column_means_no_arrival() {
    let tt = table(&[&["Y"], &["8:00A"], &["8:30A"]]);
    let now = Timestamp::from_hms(Weekday::Monday, 8, 5, 0);
    assert_eq!(find_next_arrival(&tt, &key("X"), &now).unwrap_err(), Error::NoUpcomingArrival);
}

#[test]
fn column_empty_in_all_rows_means_no_arrival() {
    let tt = table(&[&["X", "Y"], &["", "8:00A"], &["", "8:30A"]]);
    let now = Timestamp::from_hms(Weekday::Monday, 8, 5, 0);
    assert_eq!(find_next_arrival(&tt, &key("X"), &now).unwrap_err(), Error::NoUpcomingArrival);
}

#[test]
fn now_after_every_row_means_no_arrival() {
    let tt = table(&[&["X"], &["8:00A"], &["8:30A"], &["9:00P"]]);
    let now = Timestamp::from_hms(Weekday::Monday, 22, 0, 0);
    assert_eq!(find_next_arrival(&tt, &key("X"), &now).unwrap_err(), Error::NoUpcomingArrival);
}

#[test]
fn absent_cells_are_skipped() {
    let tt = table(&[&["X", "Y"], &["", "8:10A"], &["8:20AR", "8:10A"]]);
    let now = Timestamp::from_hms(Weekday::Monday, 8, 0, 0);
    let (time, line) = find_next_arrival(&tt, &key("X"), &now).unwrap();
    assert_eq!(time, "8:20A");
    assert_eq!(line, "red");
}

#[test]
fn malformed_cells_are_skipped() {
    let tt = table(&[&["X"], &["not a time"], &["8:30AB"]]);
    let now = Timestamp::from_hms(Weekday::Monday, 8, 0, 0);
    let (time, line) = find_next_arrival(&tt, &key("X"), &now).unwrap();
    assert_eq!(time, "8:30A");
    assert_eq!(line, "blue");
}

#[test]
fn scan_picks_the_right_column() {
    let tt = table(&[&["X", "Y"], &["9:00A", "8:30A"]]);
    let now = Timestamp::from_hms(Weekday::Monday, 8, 0, 0);
    let (time, _) = find_next_arrival(&tt, &key("Y"), &now).unwrap();
    assert_eq!(time, "8:30A");
}

#[test]
fn equality_is_still_upcoming() {
    let tt = table(&[&["X"], &["8:05A"]]);
    let now = Timestamp::from_hms(Weekday::Monday, 8, 5, 0);
    let (time, _) = find_next_arrival(&tt, &key("X"), &now).unwrap();
    assert_eq!(time, "8:05A");
}

#[test]
fn a_table_needs_a_header_record() {
    assert_eq!(timetable_from_records(Vec::new()).unwrap_err(), Error::TimetableUnavailable);
}
