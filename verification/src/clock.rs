//! The local wall-clock time, as the logs, history and bookmarks stamp it.

use vstd::prelude::*;

verus! {

/// `c` is one of the digits `0` to `9`.
pub open spec fn is_digit(c: char) -> bool {
    '0' <= c && c <= '9'
}

/// A year as `%Y` writes it: four digits, or for a year outside `0..=9999` a sign followed by
/// at least four digits.
pub open spec fn is_year(y: Seq<char>) -> bool {
    &&& y.len() >= 4
    &&& is_digit(y[0]) || y[0] == '+' || y[0] == '-'
    &&& forall|i: int| 1 <= i < y.len() ==> is_digit(#[trigger] y[i])
}

/// The rest of a stamp after the year: `-MM-DDTHH:MM:SS`, two digits each.
pub open spec fn is_date_time_tail(t: Seq<char>) -> bool {
    &&& t.len() == 15
    &&& t[0] == '-' && is_digit(t[1]) && is_digit(t[2])
    &&& t[3] == '-' && is_digit(t[4]) && is_digit(t[5])
    &&& t[6] == 'T' && is_digit(t[7]) && is_digit(t[8])
    &&& t[9] == ':' && is_digit(t[10]) && is_digit(t[11])
    &&& t[12] == ':' && is_digit(t[13]) && is_digit(t[14])
}

/// `s` has the shape of a `%Y-%m-%dT%H:%M:%S` stamp (`2026-06-03T14:22:15` for a year of four
/// digits).
pub open spec fn is_timestamp(s: Seq<char>) -> bool {
    &&& s.len() >= 19
    &&& is_year(s.take(s.len() - 15))
    &&& is_date_time_tail(s.skip(s.len() - 15))
}

/// The current local date and time, read through `chrono::Local::now()` and rendered with the
/// pattern `%Y-%m-%dT%H:%M:%S`. Which time it is depends on the clock and the time zone and is
/// not stated; the shape of the text is what chrono's formatting of that pattern writes: the
/// year (four digits, or a sign and at least four digits outside `0..=9999`), then month, day,
/// hour, minute and second as two zero-padded digits each.
#[verifier::external_body]
pub fn local_timestamp() -> (r: String)
    ensures
        is_timestamp(r@),
{
    chrono::Local::now().format("%Y-%m-%dT%H:%M:%S").to_string()
}

} // verus!
