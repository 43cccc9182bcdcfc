//! Next-train arrival lookup over published timetables.
//!
//! Given a free-form station name, a travel direction and the moment of the
//! query, the library selects the timetable for that direction and day,
//! resolves the station name to a timetable column, and scans the rows in
//! file order for the first scheduled time that is still upcoming.

use vstd::prelude::*;

pub mod clock;
pub mod codec;
pub mod selector;
pub mod stations;
pub mod tabular;
pub mod text;
pub mod timetable;

verus! {

/// Every way a query can fail. All of these are recoverable: the caller maps
/// each to its own response; none aborts the process.
#[derive(Clone, Copy, Debug, PartialEq, Eq, Structural)]
pub enum Error {
    /// The direction does not normalize to "east" or "west".
    InvalidDirection,
    /// The station name matches no registered alias.
    UnknownStation,
    /// No timetable is registered for the selected identifier, or the
    /// timetable bytes could not be read as tabular data.
    TimetableUnavailable,
    /// Every row either lacks the station's column or is already in the past.
    NoUpcomingArrival,
    /// A cell could not be split into hour, minute and period indicator.
    MalformedTimeCell,
}

impl Error {
    /// The caller-facing description of the failure.
    pub open spec fn spec_message(self) -> Seq<char> {
        match self {
            Error::InvalidDirection => "direction must be 'east' or 'west'"@,
            Error::UnknownStation => "that station is not in the schedule"@,
            Error::TimetableUnavailable => "no timetable is available for that day and direction"@,
            Error::NoUpcomingArrival => "failed to find a time from schedule data"@,
            Error::MalformedTimeCell => "a schedule cell does not encode a time"@,
        }
    }

    /// Render the failure as a message for the caller.
    pub fn message(&self) -> (r: String)
        ensures
            r@ == self.spec_message(),
    {
        match self {
            Error::InvalidDirection => String::from_str("direction must be 'east' or 'west'"),
            Error::UnknownStation => String::from_str("that station is not in the schedule"),
            Error::TimetableUnavailable => String::from_str(
                "no timetable is available for that day and direction",
            ),
            Error::NoUpcomingArrival => String::from_str("failed to find a time from schedule data"),
            Error::MalformedTimeCell => String::from_str("a schedule cell does not encode a time"),
        }
    }
}

/// A successful answer: the station and direction echoed as the caller spelt
/// them, the scheduled time as the timetable presents it (without its route
/// tag), and the line's name, or empty when the cell carried no tag.
#[derive(Debug)]
pub struct ArrivalResult {
    pub station: String,
    pub direction: String,
    pub time: String,
    pub line: String,
}

/// What one query must return: the first failure in orchestration order, or
/// the scanned-out arrival with the caller's own spellings echoed back.
///
/// The order is: the direction is parsed first; then the station is
/// resolved, before any timetable is consulted — an unknown station never
/// touches the timetable register; then the register is consulted; then the
/// timetable is scanned.
pub open spec fn spec_next_arrival(
    station: Seq<char>,
    direction: Seq<char>,
    now: clock::Timestamp,
    policy: selector::DayClassPolicy,
    aliases: Seq<(Seq<char>, Seq<char>)>,
    timetables: Seq<(selector::TimetableId, timetable::Timetable)>,
) -> Result<(Seq<char>, Seq<char>, Seq<char>, Seq<char>), Error> {
    match selector::spec_parse_direction(direction) {
        None => Err(Error::InvalidDirection),
        Some(dir) => match stations::spec_resolve(aliases, text::normalize(station)) {
            None => Err(Error::UnknownStation),
            Some(col) => {
                let id = selector::TimetableId {
                    direction: dir,
                    day: selector::spec_classify(now.weekday, policy),
                };
                match timetable::spec_lookup(timetables, id) {
                    None => Err(Error::TimetableUnavailable),
                    Some(tt) => match timetable::spec_find_next(tt, col, now) {
                        Ok(p) => Ok((station, direction, p.0, p.1)),
                        Err(e) => Err(e),
                    },
                }
            },
        },
    }
}

/// Does an answer agree with what the query's inputs demand?
pub open spec fn next_arrival_post(
    r: Result<ArrivalResult, Error>,
    station: Seq<char>,
    direction: Seq<char>,
    now: clock::Timestamp,
    policy: selector::DayClassPolicy,
    aliases: Seq<(Seq<char>, Seq<char>)>,
    timetables: Seq<(selector::TimetableId, timetable::Timetable)>,
) -> bool {
    let s = spec_next_arrival(station, direction, now, policy, aliases, timetables);
    &&& (r is Ok <==> s is Ok)
    &&& (r matches Ok(a) ==> (s matches Ok(t) && a.station@ == t.0 && a.direction@ == t.1
        && a.time@ == t.2 && a.line@ == t.3))
    &&& (r matches Err(e) ==> s == Err::<(Seq<char>, Seq<char>, Seq<char>, Seq<char>), Error>(e))
}

/// Answer one query: when is the next train at `station` heading `direction`,
/// as of `now`?
///
/// The direction is parsed first, failing fast with
/// [`Error::InvalidDirection`]; the station is resolved next, failing with
/// [`Error::UnknownStation`] before any timetable is consulted; the register
/// is then asked for the timetable of (direction, day class), failing with
/// [`Error::TimetableUnavailable`]; finally the timetable is scanned, and the
/// first still-upcoming time is returned with the caller's own station and
/// direction spellings echoed back.
pub fn next_arrival(
    station: &str,
    direction: &str,
    now: &clock::Timestamp,
    policy: selector::DayClassPolicy,
    aliases: &stations::AliasTable,
    timetables: &timetable::TimetableSet,
) -> (r: Result<ArrivalResult, Error>)
    ensures
        next_arrival_post(r, station@, direction@, *now, policy, aliases@, timetables.entries@),
{
    let dir = match selector::parse_direction(direction) {
        Ok(d) => d,
        Err(e) => {
            return Err(e);
        },
    };
    let key = match stations::resolve(station, aliases) {
        Ok(k) => k,
        Err(e) => {
            return Err(e);
        },
    };
    let id = selector::TimetableId {
        direction: dir,
        day: selector::classify_day(now.weekday, policy),
    };
    let tt = match timetables.lookup(&id) {
        Some(t) => t,
        None => {
            return Err(Error::TimetableUnavailable);
        },
    };
    match timetable::find_next_arrival(tt, &key, now) {
        Ok(p) => Ok(
            ArrivalResult {
                station: String::from_str(station),
                direction: String::from_str(direction),
                time: p.0,
                line: p.1,
            },
        ),
        Err(e) => Err(e),
    }
}

/// A successful query never hands back a past time: the time it returns
/// decodes, and what it decodes to is at or after the query moment's
/// time-of-day. Equality counts as "arriving now".
pub proof fn lemma_next_arrival_never_past(
    station: Seq<char>,
    direction: Seq<char>,
    now: clock::Timestamp,
    policy: selector::DayClassPolicy,
    aliases: Seq<(Seq<char>, Seq<char>)>,
    timetables: Seq<(selector::TimetableId, timetable::Timetable)>,
)
    ensures
        spec_next_arrival(station, direction, now, policy, aliases, timetables) matches Ok(t) ==> (
        codec::spec_decode_part(t.2) matches Some(hm) && now.secs_of_day <= hm.0 * 3600 + hm.1
            * 60),
{
    let r = spec_next_arrival(station, direction, now, policy, aliases, timetables);
    if r is Ok {
        let dir = selector::spec_parse_direction(direction)->0;
        let col = stations::spec_resolve(aliases, text::normalize(station))->0;
        let id = selector::TimetableId {
            direction: dir,
            day: selector::spec_classify(now.weekday, policy),
        };
        let tt = timetable::spec_lookup(timetables, id)->0;
        let c = timetable::spec_col_index(tt.spec_headers(), col)->0;
        timetable::lemma_scan_not_past(tt.spec_rows(), c, now.secs_of_day as int);
    }
}

/// When the query is well-formed — direction valid, station known, a
/// timetable registered whose headers hold the station's column — and some
/// row still presents a qualifying cell at that column, the query succeeds.
/// In particular, a `now` at or before the last scheduled, well-formed time
/// of the column cannot come back empty-handed.
pub proof fn lemma_next_arrival_succeeds(
    station: Seq<char>,
    direction: Seq<char>,
    now: clock::Timestamp,
    policy: selector::DayClassPolicy,
    aliases: Seq<(Seq<char>, Seq<char>)>,
    timetables: Seq<(selector::TimetableId, timetable::Timetable)>,
)
    requires
        selector::spec_parse_direction(direction) is Some,
        stations::spec_resolve(aliases, text::normalize(station)) is Some,
        ({
            let dir = selector::spec_parse_direction(direction)->0;
            let col = stations::spec_resolve(aliases, text::normalize(station))->0;
            let id = selector::TimetableId {
                direction: dir,
                day: selector::spec_classify(now.weekday, policy),
            };
            &&& timetable::spec_lookup(timetables, id) is Some
            &&& {
                let tt = timetable::spec_lookup(timetables, id)->0;
                &&& timetable::spec_col_index(tt.spec_headers(), col) is Some
                &&& exists|i: int|
                    0 <= i < tt.spec_rows().len() && ((#[trigger] timetable::row_cell(
                        tt.spec_rows()[i],
                        timetable::spec_col_index(tt.spec_headers(), col)->0,
                    )) matches Some(cell) && codec::cell_qualifies(cell, now.secs_of_day as int))
            }
        }),
    ensures
        spec_next_arrival(station, direction, now, policy, aliases, timetables) is Ok,
{
    let dir = selector::spec_parse_direction(direction)->0;
    let col = stations::spec_resolve(aliases, text::normalize(station))->0;
    let id = selector::TimetableId {
        direction: dir,
        day: selector::spec_classify(now.weekday, policy),
    };
    let tt = timetable::spec_lookup(timetables, id)->0;
    let c = timetable::spec_col_index(tt.spec_headers(), col)->0;
    timetable::lemma_scan_completeness(tt.spec_rows(), c, now.secs_of_day as int);
}

/// Querying twice with the same frozen moment and the same inputs gives the
/// same outcome: any two answers that meet the query's contract agree, view
/// for view — the result is a function of the query alone.
pub proof fn lemma_next_arrival_idempotent(
    r1: Result<ArrivalResult, Error>,
    r2: Result<ArrivalResult, Error>,
    station: Seq<char>,
    direction: Seq<char>,
    now: clock::Timestamp,
    policy: selector::DayClassPolicy,
    aliases: Seq<(Seq<char>, Seq<char>)>,
    timetables: Seq<(selector::TimetableId, timetable::Timetable)>,
)
    requires
        next_arrival_post(r1, station, direction, now, policy, aliases, timetables),
        next_arrival_post(r2, station, direction, now, policy, aliases, timetables),
    ensures
        r1 is Ok <==> r2 is Ok,
        r1 matches Ok(a1) ==> (r2 matches Ok(a2) && a1.station@ == a2.station@ && a1.direction@
            == a2.direction@ && a1.time@ == a2.time@ && a1.line@ == a2.line@),
        r1 matches Err(e1) ==> (r2 matches Err(e2) && e1 == e2),
{
}

/// Direction spelling does not matter beyond normalization: two direction
/// strings with the same trimmed, lower-cased form select the same timetable
/// identifier — or both fail.
pub proof fn lemma_direction_normalization(
    d1: Seq<char>,
    d2: Seq<char>,
    now: clock::Timestamp,
    policy: selector::DayClassPolicy,
)
    requires
        text::normalize(d1) == text::normalize(d2),
    ensures
        selector::spec_select_timetable_id(d1, now, policy) == selector::spec_select_timetable_id(
            d2,
            now,
            policy,
        ),
{
}

/// Aliases are equivalent: two station spellings that resolve to the same
/// column key — in particular, two registered aliases of one station — get
/// the same time, the same line, and the same failure, for one and the same
/// query; only the echoed spelling differs.
pub proof fn lemma_alias_equivalence(
    s1: Seq<char>,
    s2: Seq<char>,
    direction: Seq<char>,
    now: clock::Timestamp,
    policy: selector::DayClassPolicy,
    aliases: Seq<(Seq<char>, Seq<char>)>,
    timetables: Seq<(selector::TimetableId, timetable::Timetable)>,
)
    requires
        stations::spec_resolve(aliases, text::normalize(s1)) == stations::spec_resolve(
            aliases,
            text::normalize(s2),
        ),
    ensures
        ({
            let r1 = spec_next_arrival(s1, direction, now, policy, aliases, timetables);
            let r2 = spec_next_arrival(s2, direction, now, policy, aliases, timetables);
            &&& r1 is Ok <==> r2 is Ok
            &&& r1 matches Ok(a1) ==> (r2 matches Ok(a2) && a1.2 == a2.2 && a1.3 == a2.3)
            &&& r1 matches Err(e1) ==> (r2 matches Err(e2) && e1 == e2)
        }),
{
}

} // verus!
