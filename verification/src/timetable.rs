//! The timetable model and the scan for the next arrival.
//!
//! A timetable is an ordered sequence of rows under a header row; a cell
//! holds the compact time encoding or is absent. Row order is the file's
//! order and is trusted to be ascending in time of day — the scan takes the
//! first qualifying row and does not search for a global minimum, so a
//! non-monotonic file yields the first qualifying time encountered.
//!
//! Policy: a cell that does not decode is skipped like an absent one; the
//! scan never reports a malformed cell as a time.

use vstd::prelude::*;

use crate::clock::Timestamp;
use crate::codec;
use crate::selector::TimetableId;
use crate::stations::StationKey;
use crate::Error;

verus! {

/// One published timetable: the station columns and the rows of scheduled
/// times, in file order. A row may be shorter than the header row; positions
/// it does not reach count as absent.
#[derive(Debug)]
pub struct Timetable {
    /// The column headers: one canonical station key each.
    pub headers: Vec<String>,
    /// The rows; in each, position `j` belongs to column `j`, `None` meaning
    /// no service at that station in that row.
    pub rows: Vec<Vec<Option<String>>>,
}

impl Timetable {
    /// The column headers as character sequences.
    pub open spec fn spec_headers(&self) -> Seq<Seq<char>> {
        self.headers.deep_view()
    }

    /// The rows as character sequences, absent cells kept absent.
    pub open spec fn spec_rows(&self) -> Seq<Seq<Option<Seq<char>>>> {
        self.rows.deep_view()
    }
}

/// The position of the first header equal to `col`, if any.
pub open spec fn spec_col_index(headers: Seq<Seq<char>>, col: Seq<char>) -> Option<int>
    decreases headers.len(),
{
    if headers.len() == 0 {
        None
    } else if headers[0] == col {
        Some(0)
    } else {
        match spec_col_index(headers.drop_first(), col) {
            Some(i) => Some(i + 1),
            None => None,
        }
    }
}

/// Skipping a prefix that does not hold the column shifts the found position
/// by the prefix's length.
proof fn lemma_col_index_skip(headers: Seq<Seq<char>>, col: Seq<char>, i: int)
    requires
        0 <= i <= headers.len(),
        forall|k: int| 0 <= k < i ==> headers[k] != col,
    ensures
        spec_col_index(headers, col) == match spec_col_index(headers.skip(i), col) {
            Some(c) => Some(c + i),
            None => None::<int>,
        },
    decreases i,
{
    if i == 0 {
        assert(headers.skip(0) =~= headers);
    } else {
        assert(headers[0] != col);
        lemma_col_index_skip(headers.drop_first(), col, i - 1);
        assert(headers.drop_first().skip(i - 1) =~= headers.skip(i));
    }
}

/// The cell a row presents for a column: absent when the row does not reach
/// the column.
pub open spec fn row_cell(row: Seq<Option<Seq<char>>>, col: int) -> Option<Seq<char>> {
    if 0 <= col < row.len() {
        row[col]
    } else {
        None
    }
}

/// The cell of the first row, in order, whose cell at `col` is present and
/// holds a time at or after `now_secs`; nothing when no row does.
pub open spec fn spec_scan(
    rows: Seq<Seq<Option<Seq<char>>>>,
    col: int,
    now_secs: int,
) -> Option<Seq<char>>
    decreases rows.len(),
{
    if rows.len() == 0 {
        None
    } else {
        match row_cell(rows[0], col) {
            Some(cell) => if codec::cell_qualifies(cell, now_secs) {
                Some(cell)
            } else {
                spec_scan(rows.drop_first(), col, now_secs)
            },
            None => spec_scan(rows.drop_first(), col, now_secs),
        }
    }
}

/// What the scan of a whole timetable returns to the caller: the winning
/// cell's time as presented (without its route tag) and its line name, or
/// the failure when the column is missing or every row is in the past.
pub open spec fn spec_find_next(tt: Timetable, col_name: Seq<char>, now: Timestamp) -> Result<
    (Seq<char>, Seq<char>),
    Error,
> {
    match spec_col_index(tt.spec_headers(), col_name) {
        None => Err(Error::NoUpcomingArrival),
        Some(c) => match spec_scan(tt.spec_rows(), c, now.secs_of_day as int) {
            Some(cell) => Ok((codec::spec_time_part(cell), codec::spec_line_name(cell))),
            None => Err(Error::NoUpcomingArrival),
        },
    }
}

/// A scanned-out cell always holds a time at or after the query moment:
/// whatever the scan returns qualifies.
pub proof fn lemma_scan_not_past(rows: Seq<Seq<Option<Seq<char>>>>, col: int, now_secs: int)
    ensures
        spec_scan(rows, col, now_secs) matches Some(cell) ==> codec::cell_qualifies(
            cell,
            now_secs,
        ),
    decreases rows.len(),
{
    if rows.len() > 0 {
        lemma_scan_not_past(rows.drop_first(), col, now_secs);
    }
}

/// The scan succeeds exactly when some row holds a present, qualifying cell
/// at the column.
pub proof fn lemma_scan_completeness(rows: Seq<Seq<Option<Seq<char>>>>, col: int, now_secs: int)
    ensures
        (spec_scan(rows, col, now_secs) is Some) <==> exists|i: int|
            0 <= i < rows.len() && ((#[trigger] row_cell(rows[i], col)) matches Some(cell)
                && codec::cell_qualifies(cell, now_secs)),
    decreases rows.len(),
{
    if rows.len() > 0 {
        lemma_scan_completeness(rows.drop_first(), col, now_secs);
        let rest = rows.drop_first();
        if spec_scan(rows, col, now_secs) is Some {
            if !(row_cell(rows[0], col) matches Some(cell) && codec::cell_qualifies(
                cell,
                now_secs,
            )) {
                let i = choose|i: int|
                    0 <= i < rest.len() && ((#[trigger] row_cell(rest[i], col)) matches Some(cell)
                        && codec::cell_qualifies(cell, now_secs));
                assert(row_cell(rows[i + 1], col) == row_cell(rest[i], col));
            }
        } else {
            assert forall|i: int|
                0 <= i < rows.len() && ((#[trigger] row_cell(rows[i], col)) matches Some(cell)
                    && codec::cell_qualifies(cell, now_secs)) implies false by {
                if i > 0 {
                    assert(row_cell(rest[i - 1], col) == row_cell(rows[i], col));
                }
            }
        }
    }
}

/// Find the position of a station's column among the headers.
fn find_column(headers: &Vec<String>, key: &StationKey) -> (r: Option<usize>)
    ensures
        match spec_col_index(headers.deep_view(), key@) {
            Some(c) => r matches Some(u) && u == c,
            None => r is None,
        },
{
    let n = headers.len();
    let mut i: usize = 0;
    while i < n
        invariant
            0 <= i <= n,
            n == headers@.len(),
            forall|k: int| 0 <= k < i ==> headers@[k]@ != key@,
        decreases n - i,
    {
        if headers[i] == key.column {
            proof {
                lemma_vec_deep_view(*headers);
                lemma_col_index_skip(headers.deep_view(), key@, i as int);
                assert(headers.deep_view().skip(i as int)[0] == headers.deep_view()[i as int]);
            }
            return Some(i);
        }
        i = i + 1;
    }
    proof {
        lemma_vec_deep_view(*headers);
        lemma_col_index_skip(headers.deep_view(), key@, n as int);
        assert(headers.deep_view().skip(n as int) =~= Seq::<Seq<char>>::empty());
    }
    None
}

/// Scan a timetable for the next arrival at a station.
///
/// Rows are visited in file order; the first row whose cell at the station's
/// column is present and decodes to a time at or after `now` wins, and its
/// presented time and line name are returned. Fails with
/// [`Error::NoUpcomingArrival`] exactly when the column is missing from the
/// headers or no row qualifies; a cell that does not decode is skipped.
pub fn find_next_arrival(tt: &Timetable, key: &StationKey, now: &Timestamp) -> (r: Result<
    (String, String),
    Error,
>)
    ensures
        ({
            let s = spec_find_next(*tt, key@, *now);
            &&& (r is Ok <==> s is Ok)
            &&& (r matches Ok(p) ==> s matches Ok(q) && p.0@ == q.0 && p.1@ == q.1)
            &&& (r matches Err(e) ==> s == Err::<(Seq<char>, Seq<char>), Error>(e))
        }),
{
    let col = match find_column(&tt.headers, key) {
        Some(c) => c,
        None => {
            return Err(Error::NoUpcomingArrival);
        },
    };
    let nrows = tt.rows.len();
    let mut i: usize = 0;
    proof {
        assert(tt.spec_rows().skip(0) =~= tt.spec_rows());
    }
    while i < nrows
        invariant
            0 <= i <= nrows,
            nrows == tt.spec_rows().len(),
            nrows == tt.rows@.len(),
            spec_col_index(tt.spec_headers(), key@) == Some(col as int),
            spec_scan(tt.spec_rows(), col as int, now.secs_of_day as int) == spec_scan(
                tt.spec_rows().skip(i as int),
                col as int,
                now.secs_of_day as int,
            ),
        decreases nrows - i,
    {
        let row = &tt.rows[i];
        proof {
            assert(tt.spec_rows()[i as int] == tt.rows@[i as int].deep_view());
            assert(tt.spec_rows().skip(i as int)[0] == tt.spec_rows()[i as int]);
        }
        if col < row.len() {
            proof {
                assert(row.deep_view()[col as int] == row@[col as int].deep_view());
            }
            match &row[col] {
                Some(cell) => {
                    if codec::schedule_time_is_later_than_now(now, cell.as_str()) {
                        return Ok(codec::line_info(cell.clone()));
                    }
                },
                None => {},
            }
        }
        proof {
            assert(tt.spec_rows().skip(i as int).drop_first() =~= tt.spec_rows().skip(
                i as int + 1,
            ));
        }
        i = i + 1;
    }
    proof {
        assert(tt.spec_rows().skip(nrows as int) =~= Seq::<Seq<Option<Seq<char>>>>::empty());
    }
    Err(Error::NoUpcomingArrival)
}

/// An empty field in the tabular data means no service; any other field is a
/// cell.
pub open spec fn spec_cell_of_field(field: Seq<char>) -> Option<Seq<char>> {
    if field.len() == 0 {
        None
    } else {
        Some(field)
    }
}

/// The rows a block of records yields, each field read as a cell or an
/// absence.
pub open spec fn spec_rows_of_records(records: Seq<Seq<Seq<char>>>) -> Seq<Seq<Option<Seq<char>>>> {
    Seq::new(
        records.len(),
        |i: int| Seq::new(records[i].len(), |j: int| spec_cell_of_field(records[i][j])),
    )
}

/// Build a timetable from parsed tabular records: the first record is the
/// header row, the rest are rows, an empty field standing for an absent
/// cell.
///
/// Fails with [`Error::TimetableUnavailable`] exactly when there is not even
/// a header record.
pub fn timetable_from_records(records: Vec<Vec<String>>) -> (r: Result<Timetable, Error>)
    ensures
        records.deep_view().len() == 0 ==> r == Err::<Timetable, Error>(
            Error::TimetableUnavailable,
        ),
        records.deep_view().len() > 0 ==> (r matches Ok(tt) && tt.spec_headers()
            == records.deep_view()[0] && tt.spec_rows() == spec_rows_of_records(
            records.deep_view().drop_first(),
        )),
{
    let nrec = records.len();
    if nrec == 0 {
        return Err(Error::TimetableUnavailable);
    }
    let mut headers: Vec<String> = Vec::new();
    let ncol = records[0].len();
    let mut j: usize = 0;
    while j < ncol
        invariant
            0 <= j <= ncol,
            nrec == records@.len(),
            nrec > 0,
            ncol == records@[0]@.len(),
            headers@.len() == j,
            forall|k: int| 0 <= k < j ==> headers@[k]@ == records@[0]@[k]@,
        decreases ncol - j,
    {
        headers.push(records[0][j].clone());
        j = j + 1;
    }
    let mut rows: Vec<Vec<Option<String>>> = Vec::new();
    let mut i: usize = 1;
    while i < nrec
        invariant
            1 <= i <= nrec,
            nrec == records@.len(),
            rows@.len() == i - 1,
            forall|k: int|
                0 <= k < i - 1 ==> #[trigger] rows@[k].deep_view() == spec_rows_of_records(
                    records.deep_view().drop_first(),
                )[k],
        decreases nrec - i,
    {
        let m = records[i].len();
        let mut row: Vec<Option<String>> = Vec::new();
        let mut j2: usize = 0;
        while j2 < m
            invariant
                0 <= j2 <= m,
                nrec == records@.len(),
                1 <= i < nrec,
                m == records@[i as int]@.len(),
                row@.len() == j2,
                forall|k: int|
                    0 <= k < j2 ==> #[trigger] row@[k].deep_view() == spec_cell_of_field(
                        records@[i as int]@[k]@,
                    ),
            decreases m - j2,
        {
            let field = &records[i][j2];
            if field.as_str().is_empty() {
                row.push(None);
            } else {
                row.push(Some(field.clone()));
            }
            j2 = j2 + 1;
        }
        proof {
            lemma_vec_deep_view(records);
            lemma_vec_deep_view(records@[i as int]);
            lemma_vec_deep_view(row);
            assert(row.deep_view() =~= spec_rows_of_records(records.deep_view().drop_first())[i
                - 1]);
        }
        rows.push(row);
        i = i + 1;
    }
    let tt = Timetable { headers, rows };
    proof {
        lemma_vec_deep_view(records);
        lemma_vec_deep_view(records@[0]);
        lemma_vec_deep_view(tt.headers);
        lemma_vec_deep_view(tt.rows);
        assert(tt.spec_headers() =~= records.deep_view()[0]);
        assert(tt.spec_rows() =~= spec_rows_of_records(records.deep_view().drop_first()));
    }
    Ok(tt)
}

/// The deep view of a vector, spelled out element by element for the loop
/// proofs.
proof fn lemma_vec_deep_view<T: DeepView>(v: Vec<T>)
    ensures
        v.deep_view().len() == v@.len(),
        forall|k: int| 0 <= k < v@.len() ==> #[trigger] v.deep_view()[k] == v@[k].deep_view(),
{
}

/// The timetables the process holds, one per identifier, registered at
/// start-up and read-only afterwards. Lookup takes the first entry with the
/// identifier.
#[derive(Debug)]
pub struct TimetableSet {
    /// The registered (identifier, timetable) pairs, in registration order.
    pub entries: Vec<(TimetableId, Timetable)>,
}

/// The timetable registered first under the identifier, if any.
pub open spec fn spec_lookup(entries: Seq<(TimetableId, Timetable)>, id: TimetableId) -> Option<
    Timetable,
>
    decreases entries.len(),
{
    if entries.len() == 0 {
        None
    } else if entries[0].0 == id {
        Some(entries[0].1)
    } else {
        spec_lookup(entries.drop_first(), id)
    }
}

impl TimetableSet {
    /// An empty register.
    pub fn new() -> (r: TimetableSet)
        ensures
            r.entries@ == Seq::<(TimetableId, Timetable)>::empty(),
    {
        TimetableSet { entries: Vec::new() }
    }

    /// Register a timetable under an identifier.
    pub fn add(&mut self, id: TimetableId, tt: Timetable)
        ensures
            final(self).entries@ == old(self).entries@.push((id, tt)),
    {
        self.entries.push((id, tt));
    }

    /// The timetable to consult for an identifier, if one is registered.
    pub fn lookup(&self, id: &TimetableId) -> (r: Option<&Timetable>)
        ensures
            match spec_lookup(self.entries@, *id) {
                Some(tt) => r matches Some(t) && *t == tt,
                None => r is None,
            },
    {
        let n = self.entries.len();
        let mut i: usize = 0;
        proof {
            assert(self.entries@.skip(0) =~= self.entries@);
        }
        while i < n
            invariant
                0 <= i <= n,
                n == self.entries@.len(),
                spec_lookup(self.entries@, *id) == spec_lookup(self.entries@.skip(i as int), *id),
            decreases n - i,
        {
            proof {
                assert(self.entries@.skip(i as int)[0] == self.entries@[i as int]);
            }
            if self.entries[i].0 == *id {
                return Some(&self.entries[i].1);
            }
            proof {
                assert(self.entries@.skip(i as int).drop_first() =~= self.entries@.skip(
                    i as int + 1,
                ));
            }
            i = i + 1;
        }
        proof {
            assert(self.entries@.skip(n as int) =~= Seq::<(TimetableId, Timetable)>::empty());
        }
        None
    }
}

} // verus!
