//! The compact time encoding used by the timetable cells.
//!
//! A cell presents a wall-clock time as `"H:MM"` (hour of one or two digits,
//! minute of exactly two), followed by a period indicator (`'P'` means PM,
//! any other character means AM) and, optionally, a single route letter that
//! tags the line the departure belongs to. `"4:15PR"` is 16:15 on the red
//! line; `"8:30A"` is 08:30 with no tag. A trailing `'A'` or `'P'` is always
//! read as the period indicator, so a tag letter can be told apart from the
//! indicator it follows.
//!
//! Policy: decoding is strict. A cell that does not fit the shape above, or
//! whose minute is above 59, is rejected as malformed rather than read as a
//! zero value. The hour digits are taken modulo 12 before the PM offset is
//! added, so the decoded hour always lies in 0..=23.

use vstd::prelude::*;

use crate::clock::Timestamp;
use crate::Error;

verus! {

/// Is the character a period indicator rather than a route tag?
pub open spec fn is_period_indicator(c: char) -> bool {
    c == 'A' || c == 'P'
}

/// The cell without its route tag: everything up to and including the period
/// indicator. A final `'A'` or `'P'` is the indicator itself, so nothing is
/// dropped; any other final character is a route tag and is dropped.
pub open spec fn spec_time_part(cell: Seq<char>) -> Seq<char> {
    if cell.len() > 0 && !is_period_indicator(cell.last()) {
        cell.drop_last()
    } else {
        cell
    }
}

/// The route tag of the cell: its final character when that character is not
/// a period indicator, and empty otherwise.
pub open spec fn spec_tag(cell: Seq<char>) -> Seq<char> {
    cell.skip(spec_time_part(cell).len() as int)
}

/// The service name a route tag letter stands for: `'R'` is the red line,
/// `'B'` the blue line, anything else is left unnamed.
pub open spec fn spec_line_name(cell: Seq<char>) -> Seq<char> {
    let tag = spec_tag(cell);
    if tag.len() == 1 && tag[0] == 'R' {
        "red"@
    } else if tag.len() == 1 && tag[0] == 'B' {
        "blue"@
    } else {
        Seq::empty()
    }
}

/// Is the character an ASCII digit?
pub open spec fn is_digit(c: char) -> bool {
    48 <= c as u32 && c as u32 <= 57
}

/// The numeric value of an ASCII digit.
pub open spec fn digit_val(c: char) -> int {
    c as u32 - 48
}

/// The hour and minute encoded by an `"H:MM"` body: the hour one or two
/// digits, the minute exactly two and at most 59. Anything else is malformed.
pub open spec fn spec_body_hm(body: Seq<char>) -> Option<(int, int)> {
    if body.len() == 4 && is_digit(body[0]) && body[1] == ':' && is_digit(body[2]) && is_digit(
        body[3],
    ) {
        let m = 10 * digit_val(body[2]) + digit_val(body[3]);
        if m <= 59 {
            Some((digit_val(body[0]), m))
        } else {
            None
        }
    } else if body.len() == 5 && is_digit(body[0]) && is_digit(body[1]) && body[2] == ':'
        && is_digit(body[3]) && is_digit(body[4]) {
        let m = 10 * digit_val(body[3]) + digit_val(body[4]);
        if m <= 59 {
            Some((10 * digit_val(body[0]) + digit_val(body[1]), m))
        } else {
            None
        }
    } else {
        None
    }
}

/// The 24-hour time a tag-free time part encodes: its final character is the
/// period indicator, the rest is the `"H:MM"` body. The hour is taken modulo
/// 12 and the PM offset added, so midnight is `"12:00A"` and noon `"12:00P"`.
pub open spec fn spec_decode_part(part: Seq<char>) -> Option<(int, int)> {
    if part.len() == 0 {
        None
    } else {
        let pm = part.last() == 'P';
        match spec_body_hm(part.drop_last()) {
            Some(hm) => Some((hm.0 % 12 + if pm { 12int } else { 0int }, hm.1)),
            None => None,
        }
    }
}

/// The 24-hour time a whole cell encodes, or nothing when the cell is
/// malformed.
pub open spec fn spec_decode_time(cell: Seq<char>) -> Option<(int, int)> {
    spec_decode_part(spec_time_part(cell))
}

/// Does the cell encode a time that is still upcoming at `now_secs` seconds
/// past midnight? Equality counts as upcoming; a malformed cell never does.
pub open spec fn cell_qualifies(cell: Seq<char>, now_secs: int) -> bool {
    match spec_decode_time(cell) {
        Some(hm) => now_secs <= hm.0 * 3600 + hm.1 * 60,
        None => false,
    }
}

/// A decoded cell: the 24-hour time and the route tag, if any.
#[derive(Debug)]
pub struct DecodedTime {
    /// Hour in 0..=23.
    pub hour: u8,
    /// Minute in 0..=59.
    pub minute: u8,
    /// The route tag: one letter, or empty when the cell carries none.
    pub tag: String,
}

/// The numeric value of an ASCII digit character.
fn digit_val_x(c: char) -> (v: u8)
    requires
        is_digit(c),
    ensures
        v == digit_val(c),
{
    (c as u32 - 48) as u8
}

/// Is the character an ASCII digit?
fn is_digit_x(c: char) -> (r: bool)
    ensures
        r == is_digit(c),
{
    let v = c as u32;
    48 <= v && v <= 57
}

/// Decode a timetable cell into hour, minute and route tag.
///
/// Fails with [`Error::MalformedTimeCell`] exactly when the cell cannot be
/// split into an `"H:MM"` body, a period indicator and an optional route tag,
/// or when its minute is above 59.
pub fn parse_time_of_day(cell: &str) -> (r: Result<DecodedTime, Error>)
    ensures
        match spec_decode_time(cell@) {
            Some(hm) => r matches Ok(d) && d.hour == hm.0 && d.minute == hm.1 && d.tag@
                == spec_tag(cell@),
            None => r == Err::<DecodedTime, Error>(Error::MalformedTimeCell),
        },
{
    let n = cell.unicode_len();
    if n == 0 {
        return Err(Error::MalformedTimeCell);
    }
    let last = cell.get_char(n - 1);
    let (part_len, tag): (usize, String) = if last == 'A' || last == 'P' {
        (n, String::new())
    } else {
        (n - 1, String::from_str(cell.substring_char(n - 1, n)))
    };
    proof {
        assert(spec_time_part(cell@) =~= cell@.take(part_len as int));
        assert(tag@ =~= spec_tag(cell@));
    }
    if part_len == 0 {
        return Err(Error::MalformedTimeCell);
    }
    let pm = cell.get_char(part_len - 1) == 'P';
    let body_len = part_len - 1;
    proof {
        assert(spec_time_part(cell@).drop_last() =~= cell@.take(body_len as int));
        assert(spec_time_part(cell@).last() == cell@[part_len - 1]);
    }
    let (hour12, minute): (u8, u8) = if body_len == 4 {
        let h = cell.get_char(0);
        let colon = cell.get_char(1);
        let m1 = cell.get_char(2);
        let m2 = cell.get_char(3);
        if !(is_digit_x(h) && colon == ':' && is_digit_x(m1) && is_digit_x(m2)) {
            return Err(Error::MalformedTimeCell);
        }
        (digit_val_x(h), 10 * digit_val_x(m1) + digit_val_x(m2))
    } else if body_len == 5 {
        let h1 = cell.get_char(0);
        let h2 = cell.get_char(1);
        let colon = cell.get_char(2);
        let m1 = cell.get_char(3);
        let m2 = cell.get_char(4);
        if !(is_digit_x(h1) && is_digit_x(h2) && colon == ':' && is_digit_x(m1) && is_digit_x(m2)) {
            return Err(Error::MalformedTimeCell);
        }
        (10 * digit_val_x(h1) + digit_val_x(h2), 10 * digit_val_x(m1) + digit_val_x(m2))
    } else {
        return Err(Error::MalformedTimeCell);
    };
    if minute > 59 {
        return Err(Error::MalformedTimeCell);
    }
    let hour = hour12 % 12 + if pm {
        12
    } else {
        0
    };
    Ok(DecodedTime { hour, minute, tag })
}

/// Is the decoded time at or after the moment `now`? Equality counts as
/// "arriving now", hence still upcoming.
pub fn is_at_or_after(now: &Timestamp, hour: u8, minute: u8) -> (r: bool)
    ensures
        r == (now.secs_of_day <= hour * 3600 + minute * 60),
{
    now.secs_of_day <= hour as u32 * 3600 + minute as u32 * 60
}

/// Does the cell hold a scheduled time that has not yet passed at `now`?
/// A malformed cell holds none.
pub fn schedule_time_is_later_than_now(now: &Timestamp, cell: &str) -> (r: bool)
    ensures
        r == cell_qualifies(cell@, now.secs_of_day as int),
{
    match parse_time_of_day(cell) {
        Ok(d) => is_at_or_after(now, d.hour, d.minute),
        Err(_) => false,
    }
}

/// Split a cell into the time as it is presented to the caller (the cell
/// without its route tag) and the name of the line the tag stands for.
pub fn line_info(s: String) -> (r: (String, String))
    ensures
        r.0@ == spec_time_part(s@),
        r.1@ == spec_line_name(s@),
{
    let n = s.as_str().unicode_len();
    if n == 0 {
        return (s, String::new());
    }
    let last = s.as_str().get_char(n - 1);
    if last == 'A' || last == 'P' {
        proof {
            assert(spec_tag(s@) =~= Seq::<char>::empty());
        }
        (s, String::new())
    } else {
        let time = String::from_str(s.as_str().substring_char(0, n - 1));
        proof {
            assert(time@ =~= spec_time_part(s@));
            assert(spec_tag(s@) =~= seq![s@.last()]);
        }
        let line = if last == 'R' {
            String::from_str("red")
        } else if last == 'B' {
            String::from_str("blue")
        } else {
            String::new()
        };
        (time, line)
    }
}

} // verus!
