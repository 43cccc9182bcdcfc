//! Reading a timetable out of its published form: an in-memory CSV document.
//!
//! The parsing of the comma-separated bytes is delegated to the `csv` crate
//! behind one trusted wrapper; everything after it — splitting the header
//! row from the data rows and reading empty fields as absent cells — is
//! verified in [`crate::timetable`].

use vstd::prelude::*;

use crate::timetable::Timetable;
use crate::Error;

verus! {

/// What the `csv` crate's reader makes of a byte blob: the header record
/// first, then every data record, each as its list of fields — or nothing,
/// when the blob is not a well-formed CSV document. Parsing an in-memory
/// document is a function of the bytes alone.
pub uninterp spec fn spec_csv_table(bytes: Seq<u8>) -> Option<Seq<Seq<Seq<char>>>>;

/// Relies on `csv::Reader::from_reader`, `Reader::headers` and
/// `Reader::records`: the reader walks the document record by record, the
/// header record kept apart; a parse or encoding error anywhere yields the
/// error case.
#[verifier::external_body]
fn read_csv_table(bytes: &[u8]) -> (r: Option<Vec<Vec<String>>>)
    ensures
        r.deep_view() == spec_csv_table(bytes@),
{
    let mut reader = csv::Reader::from_reader(bytes);
    let mut table: Vec<Vec<String>> = Vec::new();
    match reader.headers() {
        Ok(h) => table.push(h.iter().map(|f| f.to_string()).collect()),
        Err(_) => return None,
    }
    for record in reader.records() {
        match record {
            Ok(rec) => table.push(rec.iter().map(|f| f.to_string()).collect()),
            Err(_) => return None,
        }
    }
    Some(table)
}

/// Build a timetable from the published CSV bytes: the header record names
/// the station columns, each further record is one row, an empty field
/// standing for an absent cell.
///
/// Fails with [`Error::TimetableUnavailable`] exactly when the bytes are not
/// a well-formed CSV document or hold not even a header record.
pub fn timetable_from_csv(bytes: &[u8]) -> (r: Result<Timetable, Error>)
    ensures
        match spec_csv_table(bytes@) {
            None => r == Err::<Timetable, Error>(Error::TimetableUnavailable),
            Some(table) => {
                &&& table.len() == 0 ==> r == Err::<Timetable, Error>(Error::TimetableUnavailable)
                &&& table.len() > 0 ==> (r matches Ok(tt) && tt.spec_headers() == table[0]
                    && tt.spec_rows() == crate::timetable::spec_rows_of_records(
                    table.drop_first(),
                ))
            },
        },
{
    match read_csv_table(bytes) {
        None => Err(Error::TimetableUnavailable),
        Some(records) => crate::timetable::timetable_from_records(records),
    }
}

} // verus!
