//! Calendar dates and clock times of reservations, and the texts under which
//! they are shown.

use vstd::prelude::*;
use crate::text::{decimal, int_text, padded, push_int, push_padded, push_str_chars, string_of};

verus! {

/// The earliest year that a calendar date may have.
pub const MIN_YEAR: i32 = -262143;

/// The latest year that a calendar date may have.
pub const MAX_YEAR: i32 = 262142;

/// Whether `year` is a leap year of the proleptic Gregorian calendar.
pub open spec fn is_leap_year(year: int) -> bool {
    (year % 4 == 0 && year % 100 != 0) || year % 400 == 0
}

/// The number of days of `month` (1 to 12) in `year`.
pub open spec fn days_in_month(year: int, month: int) -> int {
    if month == 2 {
        if is_leap_year(year) {
            29
        } else {
            28
        }
    } else if month == 4 || month == 6 || month == 9 || month == 11 {
        30
    } else {
        31
    }
}

/// Whether year, month and day name a day of the calendar within the years
/// that a date may have.
pub open spec fn valid_ymd(year: int, month: int, day: int) -> bool {
    &&& MIN_YEAR <= year <= MAX_YEAR
    &&& 1 <= month <= 12
    &&& 1 <= day <= days_in_month(year, month)
}

/// Whether chrono accepts the calendar date (chrono's
/// `NaiveDate::from_ymd_opt`). Its documentation: the result is `None` on an
/// out-of-range date or an invalid month or day; its source bounds the year to
/// `(i32::MIN >> 13) + 1 ..= (i32::MAX >> 13) - 1` and checks the day against
/// the month's length in the Gregorian calendar. The date it makes, which
/// carries the given year, month and day, is dropped here: only whether one
/// was made is returned.
#[verifier::external_body]
fn chrono_date_exists(year: i32, month: u32, day: u32) -> (res: bool)
    ensures
        res == valid_ymd(year as int, month as int, day as int),
{
    chrono::NaiveDate::from_ymd_opt(year, month, day).is_some()
}

/// A day of the calendar.
#[derive(Debug, Clone, Copy, PartialEq, Eq, Structural)]
pub struct Date {
    pub year: i32,
    pub month: u32,
    pub day: u32,
}

impl Date {
    /// Whether the fields name a day of the calendar.
    pub open spec fn wf(self) -> bool {
        valid_ymd(self.year as int, self.month as int, self.day as int)
    }

    /// The date with the given year, month and day, if there is one.
    pub fn from_ymd_opt(year: i32, month: u32, day: u32) -> (res: Option<Date>)
        ensures
            res is Some <==> valid_ymd(year as int, month as int, day as int),
            res matches Some(d) ==> d == (Date { year, month, day }),
    {
        if chrono_date_exists(year, month, day) {
            Some(Date { year, month, day })
        } else {
            None
        }
    }

    /// The text of the date as chrono shows it (`%Y-%m-%d`).
    pub fn to_text(&self) -> (res: String)
        requires
            self.wf(),
        ensures
            res@ == date_text(self.year as int, self.month as nat, self.day as nat),
    {
        let mut out: Vec<char> = Vec::new();
        push_date(&mut out, self);
        string_of(out.as_slice())
    }
}

/// The year as chrono shows it: four digits for years 0 to 9999, otherwise a
/// sign and at least four digits.
pub open spec fn year_text(year: int) -> Seq<char> {
    if 0 <= year <= 9999 {
        padded(year as nat, 4)
    } else if year < 0 {
        seq!['-'] + padded((-year) as nat, 4)
    } else {
        seq!['+'] + padded(year as nat, 4)
    }
}

/// A date as chrono's `Display` and `Debug` show it: year, two-digit month and
/// two-digit day, separated by `-`.
pub open spec fn date_text(year: int, month: nat, day: nat) -> Seq<char> {
    year_text(year) + seq!['-'] + padded(month, 2) + seq!['-'] + padded(day, 2)
}

/// Appends the text of `d` to `out`.
pub(crate) fn push_date(out: &mut Vec<char>, d: &Date)
    requires
        d.wf(),
    ensures
        final(out)@ == old(out)@ + date_text(d.year as int, d.month as nat, d.day as nat),
{
    let ghost start = out@;
    let y = d.year;
    if 0 <= y && y <= 9999 {
        push_padded(out, y as u64, 4);
    } else if y < 0 {
        out.push('-');
        push_padded(out, (-y) as u64, 4);
    } else {
        out.push('+');
        push_padded(out, y as u64, 4);
    }
    assert(out@ == start + year_text(y as int));
    out.push('-');
    push_padded(out, d.month as u64, 2);
    out.push('-');
    push_padded(out, d.day as u64, 2);
    assert(out@ == start + date_text(d.year as int, d.month as nat, d.day as nat));
}

/// Whether the time crate accepts the clock time (the time crate's
/// `Time::from_hms`, documented to fail on an hour from 24, a minute from 60 or
/// a second from 60). The time it makes, which carries the given hour, minute
/// and second and a zero nanosecond, is dropped here.
#[verifier::external_body]
fn time_of_day_exists(hour: u8, minute: u8, second: u8) -> (res: bool)
    ensures
        res == (hour < 24 && minute < 60 && second < 60),
{
    time::Time::from_hms(hour, minute, second).is_ok()
}

/// A time of day.
#[derive(Debug, Clone, Copy, PartialEq, Eq, Structural)]
pub struct ClockTime {
    pub hour: u8,
    pub minute: u8,
    pub second: u8,
    pub nanosecond: u32,
}

impl ClockTime {
    /// Whether the fields name a time of day.
    pub open spec fn wf(self) -> bool {
        self.hour < 24 && self.minute < 60 && self.second < 60 && self.nanosecond < 1_000_000_000
    }

    /// The time at the given hour, minute and second, if there is one.
    pub fn from_hms(hour: u8, minute: u8, second: u8) -> (res: Option<ClockTime>)
        ensures
            res is Some <==> (hour < 24 && minute < 60 && second < 60),
            res matches Some(t) ==> t == (ClockTime { hour, minute, second, nanosecond: 0 }),
    {
        if time_of_day_exists(hour, minute, second) {
            Some(ClockTime { hour, minute, second, nanosecond: 0 })
        } else {
            None
        }
    }

    /// The text of the time as the time crate shows it.
    pub fn to_text(&self) -> (res: String)
        requires
            self.wf(),
        ensures
            res@ == time_text(self.hour as nat, self.minute as nat, self.second as nat, self.nanosecond as nat),
    {
        let mut out: Vec<char> = Vec::new();
        push_time(&mut out, self);
        string_of(out.as_slice())
    }
}

/// The number of `0` that end `s`.
pub open spec fn trailing_zeros(s: Seq<char>) -> nat
    decreases s.len(),
{
    if s.len() > 0 && s.last() == '0' {
        1 + trailing_zeros(s.drop_last())
    } else {
        0
    }
}

/// The fraction of a second as the time crate shows it: the nine digits of
/// the nanoseconds without their trailing zeros, but at least one digit.
pub open spec fn subsecond_text(nanosecond: nat) -> Seq<char> {
    let digits = padded(nanosecond, 9);
    let kept = digits.len() - trailing_zeros(digits);
    if kept >= 1 {
        digits.take(kept)
    } else {
        digits.take(1)
    }
}

/// A time of day as the time crate's `Display` shows it: the hour without
/// padding, two-digit minute and second, a `.` and the fraction of a second.
pub open spec fn time_text(hour: nat, minute: nat, second: nat, nanosecond: nat) -> Seq<char> {
    decimal(hour) + seq![':'] + padded(minute, 2) + seq![':'] + padded(second, 2) + seq!['.']
        + subsecond_text(nanosecond)
}

proof fn lemma_trailing_zeros_is(s: Seq<char>, n: nat)
    requires
        n <= s.len(),
        forall|i: int| s.len() - n <= i < s.len() ==> #[trigger] s[i] == '0',
        n < s.len() ==> s[s.len() - n - 1] != '0',
    ensures
        trailing_zeros(s) == n,
    decreases n,
{
    if n > 0 {
        assert(s[s.len() - 1] == '0');
        assert forall|i: int| s.drop_last().len() - (n - 1) <= i < s.drop_last().len() implies #[trigger] s.drop_last()[i] == '0' by {
            assert(s.drop_last()[i] == s[i]);
        }
        if n - 1 < s.drop_last().len() {
            assert(s.drop_last()[s.drop_last().len() - (n - 1) - 1] == s[s.len() - n - 1]);
        }
        lemma_trailing_zeros_is(s.drop_last(), (n - 1) as nat);
    } else {
        if s.len() > 0 {
            assert(s.last() != '0');
        }
    }
}

/// Appends the text of `t` to `out`.
pub(crate) fn push_time(out: &mut Vec<char>, t: &ClockTime)
    requires
        t.wf(),
    ensures
        final(out)@ == old(out)@ + time_text(t.hour as nat, t.minute as nat, t.second as nat, t.nanosecond as nat),
{
    let ghost start = out@;
    push_padded(out, t.hour as u64, 0);
    out.push(':');
    push_padded(out, t.minute as u64, 2);
    out.push(':');
    push_padded(out, t.second as u64, 2);
    out.push('.');
    let ghost before_fraction = out@;
    let mut digits: Vec<char> = Vec::new();
    push_padded(&mut digits, t.nanosecond as u64, 9);
    let mut kept: usize = digits.len();
    while kept > 1 && digits[kept - 1] == '0'
        invariant
            1 <= kept <= digits@.len() || (kept == 0 && digits@.len() == 0),
            kept <= digits@.len(),
            forall|i: int| kept <= i < digits@.len() ==> #[trigger] digits@[i] == '0',
        decreases kept,
    {
        kept = kept - 1;
    }
    proof {
        let p = padded(t.nanosecond as nat, 9);
        assert(digits@ == p);
        assert(p.len() >= 9);
        if kept > 1 || digits@[0] != '0' {
            lemma_trailing_zeros_is(p, (p.len() - kept) as nat);
        } else {
            lemma_trailing_zeros_is(p, p.len());
        }
    }
    let mut k: usize = 0;
    while k < kept
        invariant
            k <= kept <= digits@.len(),
            out@ == before_fraction + digits@.take(k as int),
        decreases kept - k,
    {
        out.push(digits[k]);
        assert(digits@.take(k + 1) == digits@.take(k as int).push(digits@[k as int]));
        k = k + 1;
    }
    assert(digits@.take(kept as int) == subsecond_text(t.nanosecond as nat));
    assert(padded(t.hour as nat, 0) == decimal(t.hour as nat));
}

/// A calendar date as asked for in a query: year, month and day, not yet
/// checked.
#[derive(Debug, Clone, Copy, PartialEq, Eq, Structural)]
pub struct MyDate {
    pub year: i32,
    pub month: u32,
    pub day: u32,
}

/// The text `(year, month, day)` under which a queried date is shown.
pub open spec fn my_date_text(year: int, month: int, day: int) -> Seq<char> {
    seq!['('] + int_text(year) + seq![',', ' '] + int_text(month) + seq![',', ' '] + int_text(day)
        + seq![')']
}

impl MyDate {
    /// The text under which the queried date is shown.
    pub fn fmt(&self) -> (res: String)
        ensures
            res@ == my_date_text(self.year as int, self.month as int, self.day as int),
    {
        let mut out: Vec<char> = Vec::new();
        out.push('(');
        push_int(&mut out, self.year as i64);
        push_str_chars(&mut out, ", ");
        push_int(&mut out, self.month as i64);
        push_str_chars(&mut out, ", ");
        push_int(&mut out, self.day as i64);
        out.push(')');
        proof {
            reveal_strlit(", ");
        }
        string_of(out.as_slice())
    }

    /// The calendar date that the query asks for, if it names one.
    pub fn to_date(&self) -> (res: Option<Date>)
        ensures
            res is Some <==> valid_ymd(self.year as int, self.month as int, self.day as int),
            res matches Some(d) ==> d == (Date { year: self.year, month: self.month, day: self.day }),
    {
        Date::from_ymd_opt(self.year, self.month, self.day)
    }
}

} // verus!
