use metro_schedule::clock::{Timestamp, Weekday};
use metro_schedule::stations::StationKey;
use metro_schedule::tabular::timetable_from_csv;
use metro_schedule::timetable::find_next_arrival;
use metro_schedule::Error;

const SHEET: &str = "\
Central West End Station,Stadium Station\n\
8:00AR,8:10AR\n\
8:30AB,\n\
9:00PR,9:10PR\n";

#[test]
fn csv_headers_become_columns() {
    let tt = timetable_from_csv(SHEET.as_bytes()).unwrap();
    assert_eq!(tt.headers, vec!["Central West End Station", "Stadium Station"]);
    assert_eq!(tt.rows.len(), 3);
}

#[test]
fn csv_empty_fields_are_absent_cells() {
    let tt = timetable_from_csv(SHEET.as_bytes()).unwrap();
    assert_eq!(tt.rows[1][0], Some("8:30AB".to_string()));
    assert_eq!(tt.rows[1][1], None);
}

#[test]
fn a_scan_runs_over_parsed_csv() {
    let tt = timetable_from_csv(SHEET.as_bytes()).unwrap();
    let now = Timestamp::from_hms(Weekday::Monday, 8, 20, 0);
    let key = StationKey { column: String::from("Stadium Station") };
    let (time, line) = find_next_arrival(&tt, &key, &now).unwrap();
    assert_eq!(time, "9:10P");
    assert_eq!(line, "red");
}

#[test]
fn quoted_fields_are_unescaped() {
    let sheet = "\"Laclede's Landing Station\"\n\"7:15AR\"\n";
    let tt = timetable_from_csv(sheet.as_bytes()).unwrap();
    assert_eq!(tt.headers, vec!["Laclede's Landing Station"]);
    assert_eq!(tt.rows[0][0], Some("7:15AR".to_string()));
}

#[test]
fn broken_csv_is_unavailable() {
    let bytes = b"a,b\n\"unclosed,1\n2,3\n4";
    assert_eq!(timetable_from_csv(bytes).unwrap_err(), Error::TimetableUnavailable);
}
