//! Calendar dates of the report window: the first and last day of a month,
//! and the `DD/MM/YY` form in which the portal takes them.

use vstd::prelude::*;

verus! {

/// The earliest year a date can have.
pub const MIN_YEAR: i32 = -262143;

/// The latest year a date can have.
pub const MAX_YEAR: i32 = 262142;

/// Leap years of the proleptic Gregorian calendar.
pub open spec fn is_leap_year(year: int) -> bool {
    year % 4 == 0 && (year % 100 != 0 || year % 400 == 0)
}

/// Count of days in `month` of `year`.
pub open spec fn days_in_month(year: int, month: int) -> int {
    if month == 2 {
        if is_leap_year(year) {
            29
        } else {
            28
        }
    } else if month == 4 || month == 6 || month == 9 || month == 11 {
        30
    } else {
        31
    }
}

/// Whether year, month and day name a day of the calendar within the
/// supported years.
pub open spec fn is_calendar_date(year: int, month: int, day: int) -> bool {
    &&& MIN_YEAR <= year <= MAX_YEAR
    &&& 1 <= month <= 12
    &&& 1 <= day <= days_in_month(year, month)
}

/// The calendar day before `(year, month, day)`; none before the first day
/// of `MIN_YEAR`.
pub open spec fn previous_day(year: int, month: int, day: int) -> Option<(int, int, int)> {
    if day > 1 {
        Some((year, month, day - 1))
    } else if month > 1 {
        Some((year, month - 1, days_in_month(year, month - 1)))
    } else if year > MIN_YEAR {
        Some((year - 1, 12, 31))
    } else {
        None
    }
}

/// Year and month of the month that follows `month` of `year`: December
/// rolls over into January of the next year.
pub open spec fn following_month(year: int, month: int) -> (int, int) {
    if month == 12 {
        (year + 1, 1)
    } else {
        (year, month + 1)
    }
}

/// The character of the decimal digit `d`.
pub open spec fn digit_char(d: int) -> char {
    seq!['0', '1', '2', '3', '4', '5', '6', '7', '8', '9'][d]
}

/// `n`, between 0 and 99, as two decimal digits.
pub open spec fn two_digits(n: int) -> Seq<char> {
    seq![digit_char(n / 10), digit_char(n % 10)]
}

/// The year as the portal takes it: its last two digits. A year before
/// year 0 keeps its sign and loses the padding, as a signed number printed
/// at width two does.
pub open spec fn short_year(year: int) -> Seq<char> {
    if year >= 0 {
        two_digits(year % 100)
    } else {
        let rest = (-year) % 100;
        if rest == 0 {
            two_digits(0)
        } else if rest < 10 {
            seq!['-', digit_char(rest)]
        } else {
            seq!['-'] + two_digits(rest)
        }
    }
}

/// The text `DD/MM/YY` for a date.
pub open spec fn formatted(year: int, month: int, day: int) -> Seq<char> {
    two_digits(day) + seq!['/'] + two_digits(month) + seq!['/'] + short_year(year)
}

/// `chrono::NaiveDate::from_ymd_opt`, asked only whether it yields a date:
/// it does when the day exists in the calendar and the year is within
/// `MIN_YEAR..=MAX_YEAR`.
#[verifier::external_body]
fn naive_date_exists(year: i32, month: u32, day: u32) -> (exists: bool)
    ensures
        exists == is_calendar_date(year as int, month as int, day as int),
{
    chrono::NaiveDate::from_ymd_opt(year, month, day).is_some()
}

/// `chrono::NaiveDate::pred_opt` on the date `(year, month, day)`: the
/// previous calendar date, or none when the date is the first one that can
/// be represented.
#[verifier::external_body]
fn naive_date_pred(year: i32, month: u32, day: u32) -> (before: Option<(i32, u32, u32)>)
    requires
        is_calendar_date(year as int, month as int, day as int),
    ensures
        match before {
            Some(d) => previous_day(year as int, month as int, day as int) == Some(
                (d.0 as int, d.1 as int, d.2 as int),
            ),
            None => previous_day(year as int, month as int, day as int) is None,
        },
{
    let date = chrono::NaiveDate::from_ymd_opt(year, month, day)?;
    date.pred_opt().map(
        |p| (chrono::Datelike::year(&p), chrono::Datelike::month(&p), chrono::Datelike::day(&p)),
    )
}

/// A day of the proleptic Gregorian calendar.
#[derive(Clone, Copy, Debug, PartialEq, Eq)]
pub struct CalendarDate {
    year: i32,
    month: u32,
    day: u32,
}

impl CalendarDate {
    /// Year, month and day of the date.
    pub closed spec fn ymd(self) -> (int, int, int) {
        (self.year as int, self.month as int, self.day as int)
    }

    /// Every date names an existing day.
    #[verifier::type_invariant]
    pub closed spec fn is_valid(self) -> bool {
        is_calendar_date(self.year as int, self.month as int, self.day as int)
    }

    /// The date with the given year, month and day, if there is such a day.
    pub fn new(year: i32, month: u32, day: u32) -> (date: Option<CalendarDate>)
        ensures
            date is Some <==> is_calendar_date(year as int, month as int, day as int),
            date matches Some(d) ==> d.ymd() == (year as int, month as int, day as int)
                && d.is_valid(),
    {
        if naive_date_exists(year, month, day) {
            Some(CalendarDate { year, month, day })
        } else {
            None
        }
    }

    /// The year.
    pub fn year(&self) -> (y: i32)
        ensures
            y == self.ymd().0,
    {
        self.year
    }

    /// The month, from 1 to 12.
    pub fn month(&self) -> (m: u32)
        ensures
            m == self.ymd().1,
            1 <= m <= 12,
    {
        proof {
            use_type_invariant(self);
        }
        self.month
    }

    /// The day of the month, from 1.
    pub fn day(&self) -> (d: u32)
        ensures
            d == self.ymd().2,
            1 <= d <= 31,
    {
        proof {
            use_type_invariant(self);
        }
        self.day
    }
}

/// Year and month of the month after that of `today`.
pub fn next_month(today: CalendarDate) -> (next: (i32, u32))
    ensures
        (next.0 as int, next.1 as int) == following_month(today.ymd().0, today.ymd().1),
        today.ymd().1 == 12 ==> next.0 == today.ymd().0 + 1 && next.1 == 1,
        today.ymd().1 != 12 ==> next.0 == today.ymd().0 && next.1 == today.ymd().1 + 1,
{
    proof {
        use_type_invariant(today);
    }
    if today.month == 12 {
        (today.year + 1, 1)
    } else {
        (today.year, today.month + 1)
    }
}

/// First and last day of the month of `today`. The last day is found as
/// the day before the first day of the following month, so the month after
/// `today` has to lie within the supported years.
pub fn first_and_last_day_of_month(today: CalendarDate) -> (window: (CalendarDate, CalendarDate))
    requires
        today.ymd().0 < MAX_YEAR || today.ymd().1 < 12,
    ensures
        window.0.ymd() == (today.ymd().0, today.ymd().1, 1int),
        window.1.ymd() == (
            today.ymd().0,
            today.ymd().1,
            days_in_month(today.ymd().0, today.ymd().1),
        ),
        window.0.is_valid(),
        window.1.is_valid(),
{
    proof {
        use_type_invariant(today);
    }
    let first_day = CalendarDate { year: today.year, month: today.month, day: 1 };
    let (next_year, next_month) = next_month(today);
    match naive_date_pred(next_year, next_month, 1) {
        Some((year, month, day)) => (first_day, CalendarDate { year, month, day }),
        None => vstd::pervasive::unreached(),
    }
}

/// The character of a decimal digit.
fn digit(d: u32) -> (c: char)
    requires
        d < 10,
    ensures
        c == digit_char(d as int),
{
    if d == 0 {
        '0'
    } else if d == 1 {
        '1'
    } else if d == 2 {
        '2'
    } else if d == 3 {
        '3'
    } else if d == 4 {
        '4'
    } else if d == 5 {
        '5'
    } else if d == 6 {
        '6'
    } else if d == 7 {
        '7'
    } else if d == 8 {
        '8'
    } else {
        '9'
    }
}

/// Appends `n` as two decimal digits.
fn push_two_digits(out: &mut String, n: u32)
    requires
        n < 100,
    ensures
        final(out)@ == old(out)@ + two_digits(n as int),
{
    out.push(digit(n / 10));
    out.push(digit(n % 10));
}

/// Formats `date` as `DD/MM/YY`: day and month zero-padded to two digits,
/// the year cut to its last two.
pub fn date_formatter(date: CalendarDate) -> (text: String)
    ensures
        text@ == formatted(date.ymd().0, date.ymd().1, date.ymd().2),
{
    proof {
        use_type_invariant(date);
    }
    let mut text = String::new();
    push_two_digits(&mut text, date.day);
    text.push('/');
    push_two_digits(&mut text, date.month);
    text.push('/');
    if date.year >= 0 {
        push_two_digits(&mut text, (date.year % 100) as u32);
    } else {
        let rest: u32 = ((0 - date.year) % 100) as u32;
        if rest == 0 {
            push_two_digits(&mut text, 0);
        } else if rest < 10 {
            text.push('-');
            text.push(digit(rest));
        } else {
            text.push('-');
            push_two_digits(&mut text, rest);
        }
    }
    text
}

} // verus!
