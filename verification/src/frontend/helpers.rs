//! Human-readable dates, as the frontend shows them (by `chrono`).
use vstd::prelude::*;

use crate::text::decimal;

verus! {

/// A calendar date.
#[derive(Debug, Clone, Copy, PartialEq, Eq, Structural)]
pub struct Date {
    /// The year (negative before 1 BCE).
    pub year: i32,
    /// The month, from 1 (January) to 12.
    pub month: u32,
    /// The day of the month, from 1.
    pub day: u32,
}

/// A date and a time of day.
#[derive(Debug, Clone, Copy, PartialEq, Eq, Structural)]
pub struct DateTime {
    /// The date.
    pub date: Date,
    /// The hour, from 0 to 23.
    pub hour: u32,
    /// The minute, from 0 to 59.
    pub minute: u32,
    /// The second, from 0 to 59.
    pub second: u32,
}

/// Whether a year of the proleptic Gregorian calendar is a leap year.
pub open spec fn is_leap_year(y: int) -> bool {
    (y % 4 == 0 && y % 100 != 0) || y % 400 == 0
}

/// The number of days of a month.
pub open spec fn days_in_month(y: int, m: int) -> int {
    if m == 2 {
        if is_leap_year(y) {
            29
        } else {
            28
        }
    } else if m == 4 || m == 6 || m == 9 || m == 11 {
        30
    } else {
        31
    }
}

/// A date that `chrono` can hold: a real day of a year in its range.
pub open spec fn is_valid_date(d: Date) -> bool {
    -262143 <= d.year <= 262142 && 1 <= d.month <= 12 && 1 <= d.day <= days_in_month(
        d.year as int,
        d.month as int,
    )
}

/// A date and time that `chrono` can hold (leap seconds aside).
pub open spec fn is_valid_datetime(t: DateTime) -> bool {
    is_valid_date(t.date) && t.hour < 24 && t.minute < 60 && t.second < 60
}

/// The abbreviated English name of a month (`%b`).
pub open spec fn month_abbreviation(m: int) -> Seq<char> {
    if m == 1 {
        "Jan"@
    } else if m == 2 {
        "Feb"@
    } else if m == 3 {
        "Mar"@
    } else if m == 4 {
        "Apr"@
    } else if m == 5 {
        "May"@
    } else if m == 6 {
        "Jun"@
    } else if m == 7 {
        "Jul"@
    } else if m == 8 {
        "Aug"@
    } else if m == 9 {
        "Sep"@
    } else if m == 10 {
        "Oct"@
    } else if m == 11 {
        "Nov"@
    } else {
        "Dec"@
    }
}

/// A number below 10000 with leading zeros up to four digits.
pub open spec fn four_digits(n: nat) -> Seq<char> {
    if n < 10 {
        "000"@ + decimal(n)
    } else if n < 100 {
        "00"@ + decimal(n)
    } else if n < 1000 {
        "0"@ + decimal(n)
    } else {
        decimal(n)
    }
}

/// A number below 100 with a leading zero up to two digits.
pub open spec fn two_digits(n: nat) -> Seq<char> {
    if n < 10 {
        "0"@ + decimal(n)
    } else {
        decimal(n)
    }
}

/// The year as `%Y` writes it: four digits from 0 to 9999, else a sign and at least four
/// digits.
pub open spec fn year_text(y: int) -> Seq<char> {
    if 0 <= y <= 9999 {
        four_digits(y as nat)
    } else if y < 0 {
        "-"@ + four_digits((-y) as nat)
    } else {
        "+"@ + four_digits(y as nat)
    }
}

/// A date as `%b %-d %Y` writes it, such as `Mar 7 2020`.
pub open spec fn date_text(d: Date) -> Seq<char> {
    month_abbreviation(d.month as int) + " "@ + decimal(d.day as nat) + " "@ + year_text(d.year as int)
}

/// A date and time as `%b %-d %Y, %H:%M` writes it, such as `Mar 7 2020, 09:05`.
pub open spec fn datetime_text(t: DateTime) -> Seq<char> {
    date_text(t.date) + ", "@ + two_digits(t.hour as nat) + ":"@ + two_digits(t.minute as nat)
}

/// Calls `format` of `chrono::NaiveDate` (then `to_string`) with the pattern `%b %-d %Y`,
/// for which `chrono`'s source writes the abbreviated month, the day without padding and
/// the year as `year_text` says. Other patterns are not admitted: one that `chrono`
/// cannot apply makes `to_string` panic.
#[verifier::external_body]
fn chrono_date_format(d: &Date, pattern: &str) -> (res: String)
    requires
        is_valid_date(*d),
        pattern@ == "%b %-d %Y"@,
    ensures
        res@ == date_text(*d),
{
    chrono::NaiveDate::from_ymd_opt(d.year, d.month, d.day).unwrap().format(pattern).to_string()
}

/// Calls `format` of `chrono::NaiveDateTime` (then `to_string`) with the pattern
/// `%b %-d %Y, %H:%M`, for which `chrono`'s source writes the date as for `%b %-d %Y`, then
/// the hour and the minute on two digits. Other patterns are not admitted: one that
/// `chrono` cannot apply makes `to_string` panic.
#[verifier::external_body]
fn chrono_datetime_format(t: &DateTime, pattern: &str) -> (res: String)
    requires
        is_valid_datetime(*t),
        pattern@ == "%b %-d %Y, %H:%M"@,
    ensures
        res@ == datetime_text(*t),
{
    chrono::NaiveDate::from_ymd_opt(t.date.year, t.date.month, t.date.day).unwrap().and_hms_opt(t.hour, t.minute, t.second).unwrap().format(pattern).to_string()
}

/// A date and time as the frontend shows it, such as `Mar 7 2020, 09:05`.
pub fn humanize_datetime(date: DateTime) -> (res: String)
    requires
        is_valid_datetime(date),
    ensures
        res@ == datetime_text(date),
{
    chrono_datetime_format(&date, "%b %-d %Y, %H:%M")
}

/// A date as the frontend shows it, such as `Mar 7 2020`.
pub fn humanize_date(date: Date) -> (res: String)
    requires
        is_valid_date(date),
    ensures
        res@ == date_text(date),
{
    chrono_date_format(&date, "%b %-d %Y")
}

} // verus!
