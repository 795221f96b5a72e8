//! Calendar dates of the daily log and their stored ISO 8601 text.

use vstd::prelude::*;

verus! {

/// Whether `year` has a 29th of February.
pub open spec fn is_leap_year(year: int) -> bool {
    year % 4 == 0 && (year % 100 != 0 || year % 400 == 0)
}

/// The number of days of a month of the Gregorian calendar.
pub open spec fn days_in_month(year: int, month: int) -> int
    recommends
        1 <= month <= 12,
{
    if month == 2 {
        if is_leap_year(year) {
            29
        } else {
            28
        }
    } else if month == 4 || month == 6 || month == 9 || month == 11 {
        30
    } else {
        31
    }
}

/// Whether the calendar has a day of these numbers.
pub open spec fn is_calendar_date(year: int, month: int, day: int) -> bool {
    1 <= month <= 12 && 1 <= day <= days_in_month(year, month)
}

/// The character of a decimal digit.
pub open spec fn decimal_digit(n: int) -> char
    recommends
        0 <= n < 10,
{
    (48 + n) as u8 as char
}

/// A date as `YYYY-MM-DD`, each number padded with zeros.
pub open spec fn iso_text(year: int, month: int, day: int) -> Seq<char>
    recommends
        0 <= year <= 9999,
        1 <= month <= 12,
        1 <= day <= 31,
{
    seq![
        decimal_digit(year / 1000),
        decimal_digit(year / 100 % 10),
        decimal_digit(year / 10 % 10),
        decimal_digit(year % 10),
        '-',
        decimal_digit(month / 10),
        decimal_digit(month % 10),
        '-',
        decimal_digit(day / 10),
        decimal_digit(day % 10),
    ]
}

/// `chrono::NaiveDate::from_ymd_opt`, asked only whether it finds a date:
/// for a year from 0 to 9999 it does exactly if the month is one of the
/// twelve and the day one of that month, February having 29 days in leap
/// years.
#[verifier::external_body]
fn calendar_has(year: i32, month: u32, day: u32) -> (known: bool)
    requires
        0 <= year <= 9999,
    ensures
        known == is_calendar_date(year as int, month as int, day as int),
{
    chrono::NaiveDate::from_ymd_opt(year, month, day).is_some()
}

/// `chrono::NaiveDate::format` with the pattern `%F`, on the date that
/// `chrono::NaiveDate::from_ymd_opt` makes of the numbers: for a date of
/// the years 0 to 9999 the text is the year in four digits, the month in
/// two and the day in two, joined by hyphens.
#[verifier::external_body]
fn format_iso(year: i32, month: u32, day: u32) -> (text: String)
    requires
        0 <= year <= 9999,
        is_calendar_date(year as int, month as int, day as int),
    ensures
        text@ == iso_text(year as int, month as int, day as int),
{
    match chrono::NaiveDate::from_ymd_opt(year, month, day) {
        Some(date) => date.format("%F").to_string(),
        None => String::new(),
    }
}

/// A day of the Gregorian calendar in the years 0 to 9999, without a time.
#[derive(Clone, Copy, Debug, PartialEq, Eq)]
pub struct Date {
    year: i32,
    month: u32,
    day: u32,
}

impl Date {
    #[verifier::type_invariant]
    spec fn is_valid(self) -> bool {
        0 <= self.year <= 9999 && is_calendar_date(
            self.year as int,
            self.month as int,
            self.day as int,
        )
    }

    /// The year, month and day of the date.
    pub closed spec fn ymd(self) -> (int, int, int) {
        (self.year as int, self.month as int, self.day as int)
    }

    /// The text under which the date is stored.
    pub open spec fn spec_to_iso(self) -> Seq<char> {
        iso_text(self.ymd().0, self.ymd().1, self.ymd().2)
    }

    /// The date of a year, a month and a day, if the calendar has it and
    /// the year is one of 0 to 9999.
    pub fn from_ymd(year: i32, month: u32, day: u32) -> (date: Option<Date>)
        ensures
            date is Some <==> 0 <= year <= 9999 && is_calendar_date(
                year as int,
                month as int,
                day as int,
            ),
            date matches Some(d) ==> d.ymd() == (year as int, month as int, day as int),
    {
        if 0 <= year && year <= 9999 && calendar_has(year, month, day) {
            Some(Date { year, month, day })
        } else {
            None
        }
    }

    /// The year, from 0 to 9999.
    pub fn year(&self) -> (year: i32)
        ensures
            year == self.ymd().0,
            0 <= year <= 9999,
    {
        proof {
            use_type_invariant(self);
        }
        self.year
    }

    /// The month, from 1 to 12.
    pub fn month(&self) -> (month: u32)
        ensures
            month == self.ymd().1,
            1 <= month <= 12,
    {
        proof {
            use_type_invariant(self);
        }
        self.month
    }

    /// The day of the month, from 1.
    pub fn day(&self) -> (day: u32)
        ensures
            day == self.ymd().2,
            1 <= day <= 31,
    {
        proof {
            use_type_invariant(self);
        }
        self.day
    }

    /// Writes the date as `YYYY-MM-DD`, the text under which it is stored.
    pub fn to_iso(&self) -> (text: String)
        ensures
            text@ == self.spec_to_iso(),
    {
        proof {
            use_type_invariant(self);
        }
        format_iso(self.year, self.month, self.day)
    }

    /// Two dates with the same stored text are the same day: a query by
    /// the text of one date finds no entry of another.
    pub proof fn lemma_iso_injective(a: Date, b: Date)
        requires
            0 <= a.ymd().0 <= 9999 && 1 <= a.ymd().1 <= 12 && 1 <= a.ymd().2 <= 31,
            0 <= b.ymd().0 <= 9999 && 1 <= b.ymd().1 <= 12 && 1 <= b.ymd().2 <= 31,
            a.spec_to_iso() == b.spec_to_iso(),
        ensures
            a == b,
    {
        let s = a.spec_to_iso();
        let t = b.spec_to_iso();
        assert(s[0] == t[0] && s[1] == t[1] && s[2] == t[2] && s[3] == t[3]);
        assert(s[5] == t[5] && s[6] == t[6] && s[8] == t[8] && s[9] == t[9]);
    }
}

} // verus!
