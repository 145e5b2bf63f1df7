//! Proleptic Gregorian calendar dates as the download planner needs them:
//! validity, month boundaries, ordering and ISO text.

use vstd::prelude::*;
use vstd::string::StringExecFns;
use crate::numbers::{nat_text, zero_pad, push_nat_padded};
use crate::text::push_char;

verus! {

/// A calendar day.
#[derive(Debug, Clone, Copy, PartialEq, Eq, Structural)]
pub struct CivilDate {
    pub year: i32,
    pub month: u32,
    pub day: u32,
}

/// A calendar day with a time of day (whole seconds).
#[derive(Debug, Clone, Copy, PartialEq, Eq, Structural)]
pub struct CivilDateTime {
    pub date: CivilDate,
    pub hour: u32,
    pub minute: u32,
    pub second: u32,
}

pub open spec fn is_leap_year(y: int) -> bool {
    (y % 4 == 0 && y % 100 != 0) || y % 400 == 0
}

pub open spec fn days_in_month(y: int, m: int) -> int {
    if m == 2 {
        if is_leap_year(y) {
            29
        } else {
            28
        }
    } else if m == 4 || m == 6 || m == 9 || m == 11 {
        30
    } else {
        31
    }
}

/// Years the calendar library represents (`NaiveDate::MIN` to `NaiveDate::MAX`).
pub open spec fn year_in_range(y: int) -> bool {
    -262143 <= y && y <= 262142
}

/// A real calendar day inside the representable years.
pub open spec fn valid_date(d: CivilDate) -> bool {
    &&& year_in_range(d.year as int)
    &&& 1 <= d.month <= 12
    &&& 1 <= d.day <= days_in_month(d.year as int, d.month as int)
}

pub open spec fn valid_date_time(t: CivilDateTime) -> bool {
    valid_date(t.date) && t.hour < 24 && t.minute < 60 && t.second < 60
}

/// Chronological order of days.
pub open spec fn date_le(a: CivilDate, b: CivilDate) -> bool {
    a.year < b.year || (a.year == b.year && (a.month < b.month || (a.month == b.month && a.day
        <= b.day)))
}

/// Months counted from year zero; consecutive months differ by one.
pub open spec fn month_index(y: int, m: int) -> int {
    y * 12 + m - 1
}

pub open spec fn first_of_month(y: int, m: int) -> CivilDate {
    CivilDate { year: y as i32, month: m as u32, day: 1 }
}

pub open spec fn last_of_month(y: int, m: int) -> CivilDate {
    CivilDate { year: y as i32, month: m as u32, day: days_in_month(y, m) as u32 }
}

pub open spec fn next_month_year(y: int, m: int) -> int {
    if m == 12 {
        y + 1
    } else {
        y
    }
}

pub open spec fn next_month_month(m: int) -> int {
    if m == 12 {
        1
    } else {
        m + 1
    }
}

/// The day after `d`.
pub open spec fn day_after(d: CivilDate) -> CivilDate {
    if (d.day as int) < days_in_month(d.year as int, d.month as int) {
        CivilDate { year: d.year, month: d.month, day: (d.day + 1) as u32 }
    } else {
        first_of_month(next_month_year(d.year as int, d.month as int), next_month_month(d.month as int))
    }
}

pub open spec fn date_min(a: CivilDate, b: CivilDate) -> CivilDate {
    if date_le(a, b) {
        a
    } else {
        b
    }
}

/// ISO text of a year: four digits inside 0..=9999, otherwise a sign and at least four digits.
pub open spec fn year_text(y: int) -> Seq<char> {
    if 0 <= y && y <= 9999 {
        zero_pad(nat_text(y as nat), 4)
    } else if y < 0 {
        seq!['-'] + zero_pad(nat_text((-y) as nat), 4)
    } else {
        seq!['+'] + zero_pad(nat_text(y as nat), 4)
    }
}

/// ISO text of a day, `YYYY-MM-DD`.
pub open spec fn date_text(d: CivilDate) -> Seq<char> {
    year_text(d.year as int) + seq!['-'] + zero_pad(nat_text(d.month as nat), 2) + seq!['-']
        + zero_pad(nat_text(d.day as nat), 2)
}

/// Time of day as `HH:MM:SS`.
pub open spec fn hms_text(t: CivilDateTime) -> Seq<char> {
    zero_pad(nat_text(t.hour as nat), 2) + seq![':'] + zero_pad(nat_text(t.minute as nat), 2)
        + seq![':'] + zero_pad(nat_text(t.second as nat), 2)
}

pub fn is_leap(y: i32) -> (b: bool)
    ensures
        b == is_leap_year(y as int),
{
    let yy: i64 = y as i64 + 2400000000i64;
    proof {
        vstd::arithmetic::div_mod::lemma_mod_multiples_vanish(6000000, y as int, 400);
        vstd::arithmetic::div_mod::lemma_mod_multiples_vanish(24000000, y as int, 100);
        vstd::arithmetic::div_mod::lemma_mod_multiples_vanish(600000000, y as int, 4);
    }
    (yy % 4 == 0 && yy % 100 != 0) || yy % 400 == 0
}

pub fn month_days(y: i32, m: u32) -> (d: u32)
    ensures
        d == days_in_month(y as int, m as int),
{
    if m == 2 {
        if is_leap(y) {
            29
        } else {
            28
        }
    } else if m == 4 || m == 6 || m == 9 || m == 11 {
        30
    } else {
        31
    }
}

pub fn date_le_exec(a: &CivilDate, b: &CivilDate) -> (r: bool)
    ensures
        r == date_le(*a, *b),
{
    a.year < b.year || (a.year == b.year && (a.month < b.month || (a.month == b.month && a.day
        <= b.day)))
}

/// The first day of the month after `date`'s month.
pub fn next_month_start(date: CivilDate) -> (r: CivilDate)
    requires
        valid_date(date),
        !(date.month == 12 && date.year == 262142),
    ensures
        r == first_of_month(
            next_month_year(date.year as int, date.month as int),
            next_month_month(date.month as int),
        ),
        valid_date(r),
{
    if date.month == 12 {
        CivilDate { year: date.year + 1, month: 1, day: 1 }
    } else {
        CivilDate { year: date.year, month: date.month + 1, day: 1 }
    }
}

/// Appends the ISO text of a day.
pub fn push_date_text(out: &mut String, d: &CivilDate)
    requires
        1 <= d.month <= 12,
        1 <= d.day <= 31,
    ensures
        final(out)@ == old(out)@ + date_text(*d),
{
    let ghost pre = out@;
    if 0 <= d.year && d.year <= 9999 {
        push_nat_padded(out, d.year as u64, 4);
    } else if d.year < 0 {
        push_char(out, '-');
        push_nat_padded(out, (0 - (d.year as i64)) as u64, 4);
    } else {
        push_char(out, '+');
        push_nat_padded(out, d.year as u64, 4);
    }
    let ghost mid = out@;
    assert(mid == pre + year_text(d.year as int));
    push_char(out, '-');
    push_nat_padded(out, d.month as u64, 2);
    push_char(out, '-');
    push_nat_padded(out, d.day as u64, 2);
    assert(out@ =~= pre + date_text(*d));
}

/// Appends a time of day as `HH:MM:SS`.
pub fn push_hms_text(out: &mut String, t: &CivilDateTime)
    ensures
        final(out)@ == old(out)@ + hms_text(*t),
{
    let ghost pre = out@;
    push_nat_padded(out, t.hour as u64, 2);
    push_char(out, ':');
    push_nat_padded(out, t.minute as u64, 2);
    push_char(out, ':');
    push_nat_padded(out, t.second as u64, 2);
    assert(out@ =~= pre + hms_text(*t));
}

/// ISO text of a day.
pub fn date_to_string(d: &CivilDate) -> (s: String)
    requires
        1 <= d.month <= 12,
        1 <= d.day <= 31,
    ensures
        s@ == date_text(*d),
{
    let mut s = String::new();
    push_date_text(&mut s, d);
    assert(s@ =~= date_text(*d));
    s
}

} // verus!
