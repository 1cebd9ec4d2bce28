//! The system clock.

use crate::text::find_char;
use vstd::prelude::*;

verus! {

/// The format of the stamp in the name of a backup: year, month and day, an
/// underscore, hour, minute and second.
pub open spec fn backup_stamp_format() -> Seq<char> {
    "%Y%m%d_%H%M%S"@
}

/// The format of the times in an address record.
pub open spec fn record_time_format() -> Seq<char> {
    "%Y-%m-%dT%H:%M:%S%.fZ"@
}

/// The time on the system clock in UTC, written in `format`, or nothing where
/// the clock cannot be read as a time from 1970 on. The clock is read by
/// `std::time::SystemTime::now` and `duration_since(UNIX_EPOCH)`, the time is
/// built by `chrono::DateTime::from_timestamp` and written by
/// `DateTime::format`. None of these panics: a clock that reads before 1970,
/// or beyond what `chrono` can hold, gives nothing. Only the two formats of
/// this library are admitted: `chrono` accepts both, and writing a format
/// that it does not accept would panic.
///
/// Which time comes back is not claimed: two readings may be equal, and a
/// later one may read earlier. What is claimed is how `chrono` writes a time
/// from 1970 on in each of the two formats: `%Y` as four digits, or with a
/// sign and more digits from the year 10000 on; `%m`, `%d`, `%H`, `%M` and
/// `%S` as two digits each; `%.f` as nothing where the second is whole, else
/// as a point and three, six or nine digits; every other character as it
/// stands.
#[verifier::external_body]
fn utc_now_formatted(format: &str) -> (stamp: Option<String>)
    requires
        format@ == backup_stamp_format() || format@ == record_time_format(),
    ensures
        stamp matches Some(s) ==> (format@ == backup_stamp_format() ==> is_backup_stamp(s@)),
        stamp matches Some(s) ==> (format@ == record_time_format() ==> is_record_time(s@)),
{
    let since = std::time::SystemTime::now().duration_since(std::time::UNIX_EPOCH).ok()?;
    let secs = i64::try_from(since.as_secs()).ok()?;
    let time = chrono::DateTime::from_timestamp(secs, since.subsec_nanos())?;
    Some(time.format(format).to_string())
}

/// The stamp for the name of a backup made now: the date and the time of
/// day on the system clock, to the second. There is none where the clock
/// cannot be read as a time from 1970 on.
pub fn backup_stamp() -> (stamp: Option<String>)
    ensures
        stamp matches Some(s) ==> is_backup_stamp(s@),
{
    utc_now_formatted("%Y%m%d_%H%M%S")
}

/// The time now, as an address record holds it: the date and the time of
/// day on the system clock, with the fraction of the second. There is none
/// where the clock cannot be read as a time from 1970 on.
pub fn record_time() -> (time: Option<String>)
    ensures
        time matches Some(t) ==> is_record_time(t@),
{
    utc_now_formatted("%Y-%m-%dT%H:%M:%S%.fZ")
}

/// A decimal digit.
pub open spec fn is_digit(c: char) -> bool {
    0x30 <= c as u32 <= 0x39
}

/// Every character of `s` is a decimal digit.
pub open spec fn all_digits(s: Seq<char>) -> bool {
    forall|i: int| 0 <= i < s.len() ==> is_digit(#[trigger] s[i])
}

/// A year from 1970 on, as it is written: four digits up to the year 9999,
/// after that `+` and at least five digits.
pub open spec fn is_year(s: Seq<char>) -> bool {
    (s.len() == 4 && all_digits(s)) || (s.len() >= 6 && s[0] == '+' && all_digits(s.skip(1)))
}

/// A stamp for the name of a backup: the year, two digits each for month and
/// day, an underscore, two digits each for hour, minute and second. One
/// second is the finest that it tells.
pub open spec fn is_backup_stamp(s: Seq<char>) -> bool {
    let y = s.len() - 11;
    &&& s.len() >= 15
    &&& is_year(s.take(y))
    &&& all_digits(s.subrange(y, y + 4))
    &&& s[y + 4] == '_'
    &&& all_digits(s.skip(y + 5))
}

/// The fraction of a second in a time: nothing for a whole second, else a
/// point and three, six or nine digits.
pub open spec fn is_fraction(s: Seq<char>) -> bool {
    s.len() == 0 || (s[0] == '.' && all_digits(s.skip(1)) && (s.len() == 4 || s.len() == 7
        || s.len() == 10))
}

/// A time as an address record holds it: the year, `-`, month, `-`, day,
/// `T`, hour, `:`, minute, `:`, second, each of two digits, the fraction of
/// the second where there is one, and `Z`.
pub open spec fn is_record_time(s: Seq<char>) -> bool {
    let y = find_char(s, '-', 0);
    &&& 0 <= y
    &&& s.len() >= y + 16
    &&& is_year(s.take(y))
    &&& s[y] == '-'
    &&& all_digits(s.subrange(y + 1, y + 3))
    &&& s[y + 3] == '-'
    &&& all_digits(s.subrange(y + 4, y + 6))
    &&& s[y + 6] == 'T'
    &&& all_digits(s.subrange(y + 7, y + 9))
    &&& s[y + 9] == ':'
    &&& all_digits(s.subrange(y + 10, y + 12))
    &&& s[y + 12] == ':'
    &&& all_digits(s.subrange(y + 13, y + 15))
    &&& is_fraction(s.subrange(y + 15, s.len() - 1))
    &&& s.last() == 'Z'
}

} // verus!
