use vstd::prelude::*;
use chrono::Datelike;
use crate::error::{ErrorKind, WalletError};
use crate::numeric::{decimal_u128, parse_decimal};
use crate::text::{decimal_text, find_char, first_index_of, padded_text, push_decimal, push_padded};

verus! {

/// The proleptic Gregorian `(year, month, day)` of the day `epoch_day`
/// counted from 1970-01-01, or `None` outside the calendar's range.
pub uninterp spec fn gregorian_date_of(epoch_day: int) -> Option<(i32, u32, u32)>;

/// Relies on chrono's `NaiveDate::from_epoch_days` and `Datelike`: the calendar
/// date of a day number counted from 1970-01-01, `None` when out of range.
#[verifier::external_body]
fn calendar_date(epoch_day: i32) -> (r: Option<(i32, u32, u32)>)
    ensures
        r == gregorian_date_of(epoch_day as int),
{
    chrono::NaiveDate::from_epoch_days(epoch_day).map(|d| (d.year(), d.month(), d.day()))
}

/// Seconds in a day.
pub const SECONDS_PER_DAY: u64 = 86400;

/// A year with at least four digits, signed when it lies outside 0 to 9999:
/// a leading `-` before year zero and a leading `+` after year 9999.
pub open spec fn year_text(y: int) -> Seq<char> {
    let n: nat = if y < 0 { (-y) as nat } else { y as nat };
    let digits = if n < 10000 { padded_text(n, 4) } else { decimal_text(n) };
    if y < 0 {
        seq!['-'] + digits
    } else if y > 9999 {
        seq!['+'] + digits
    } else {
        digits
    }
}

/// `YYYY-MM-DD HH:MM:SS` for a calendar date and a second within that day.
pub open spec fn date_time_text(year: int, month: nat, day: nat, second_of_day: nat) -> Seq<char> {
    year_text(year) + seq!['-'] + padded_text(month, 2) + seq!['-'] + padded_text(day, 2)
        + seq![' '] + padded_text(second_of_day / 3600, 2) + seq![':']
        + padded_text((second_of_day % 3600) / 60, 2) + seq![':'] + padded_text(second_of_day % 60, 2)
}

/// The UTC date and time of `secs` seconds after the Unix epoch, when the
/// calendar reaches that far.
pub open spec fn epoch_date_time(secs: nat) -> Option<Seq<char>> {
    let day = secs / (SECONDS_PER_DAY as nat);
    if day > i32::MAX {
        None
    } else {
        match gregorian_date_of(day as int) {
            Some(d) => Some(date_time_text(d.0 as int, d.1 as nat, d.2 as nat, secs % (SECONDS_PER_DAY as nat))),
            None => None,
        }
    }
}

/// What `epoch_converter` yields for a text: the formatted date and time of
/// an unsigned 64-bit count of seconds.
pub open spec fn epoch_text_date_time(s: Seq<char>) -> Option<Seq<char>> {
    match decimal_u128(s) {
        Some(secs) => if secs <= u64::MAX {
            epoch_date_time(secs as nat)
        } else {
            None
        },
        None => None,
    }
}

/// Writes a calendar date and a second of that day as `YYYY-MM-DD HH:MM:SS`.
pub fn format_date_time(year: i32, month: u32, day: u32, second_of_day: u32) -> (r: String)
    ensures
        r@ == date_time_text(year as int, month as nat, day as nat, second_of_day as nat),
{
    proof {
        reveal_strlit("-");
        reveal_strlit(" ");
        reveal_strlit(":");
        reveal_strlit("+");
    }
    let mut out = String::new();
    let n: u128 = if year < 0 { (-(year as i128)) as u128 } else { year as u128 };
    if year < 0 {
        out.append("-");
    } else if year > 9999 {
        out.append("+");
    }
    if n < 10000 {
        push_padded(&mut out, n, 4);
    } else {
        push_decimal(&mut out, n);
    }
    out.append("-");
    push_padded(&mut out, month as u128, 2);
    out.append("-");
    push_padded(&mut out, day as u128, 2);
    out.append(" ");
    push_padded(&mut out, (second_of_day / 3600) as u128, 2);
    out.append(":");
    push_padded(&mut out, ((second_of_day % 3600) / 60) as u128, 2);
    out.append(":");
    push_padded(&mut out, (second_of_day % 60) as u128, 2);
    proof {
        let y = year as int;
        let yn: nat = if y < 0 { (-y) as nat } else { y as nat };
        assert(yn == n as nat);
        assert(out@ =~= date_time_text(year as int, month as nat, day as nat, second_of_day as nat));
    }
    out
}

/// Converts a count of seconds since the Unix epoch, given as decimal text,
/// to the UTC date and time `YYYY-MM-DD HH:MM:SS`. Fails with a numeric-parse
/// error when the text is not an unsigned 64-bit integer or names a moment
/// beyond the calendar's range.
pub fn epoch_converter(date: String) -> (r: Result<String, WalletError>)
    ensures
        match epoch_text_date_time(date@) {
            Some(t) => r matches Ok(s) && s@ == t,
            None => r matches Err(e) && e@ == (ErrorKind::NumericParse, date@),
        },
{
    let fail = WalletError::NumericParse { text: date.clone() };
    let secs = match parse_decimal(date.as_str()) {
        Some(v) => v,
        None => return Err(fail),
    };
    if secs > u64::MAX as u128 {
        return Err(fail);
    }
    let day = secs / (SECONDS_PER_DAY as u128);
    if day > i32::MAX as u128 {
        return Err(fail);
    }
    match calendar_date(day as i32) {
        Some((y, m, d)) => Ok(format_date_time(y, m, d, (secs % (SECONDS_PER_DAY as u128)) as u32)),
        None => Err(fail),
    }
}

/// The date part of a `date time` text: everything before the first space.
pub open spec fn date_portion(s: Seq<char>) -> Seq<char> {
    s.take(first_index_of(s, ' ') as int)
}

/// The date part of a `YYYY-MM-DD HH:MM:SS` text: everything before the first space.
pub fn date_of(timestamp: &str) -> (r: String)
    ensures
        r@ == date_portion(timestamp@),
{
    let i = find_char(timestamp, ' ');
    String::from_str(timestamp.substring_char(0, i))
}

} // verus!
