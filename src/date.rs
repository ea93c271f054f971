//! Proleptic Gregorian dates in the fixed `YYYY-MM-DD` form, and day counts.
use vstd::prelude::*;
use crate::CalcError;

verus! {

pub open spec fn is_leap(y: int) -> bool {
    (y % 4 == 0 && y % 100 != 0) || y % 400 == 0
}

pub open spec fn year_length(y: int) -> int {
    if is_leap(y) { 366 } else { 365 }
}

/// Number of days in month `m` (1..=12) of year `y`.
pub open spec fn month_length(y: int, m: int) -> int {
    if m == 2 {
        if is_leap(y) { 29 } else { 28 }
    } else if m == 4 || m == 6 || m == 9 || m == 11 {
        30
    } else {
        31
    }
}

/// Days in the years `0 .. y`.
pub open spec fn days_before_year(y: nat) -> int
    decreases y,
{
    if y == 0 { 0 } else { days_before_year((y - 1) as nat) + year_length(y - 1) }
}

/// Days in the months `1 .. m` of year `y`.
pub open spec fn days_before_month(y: int, m: nat) -> int
    decreases m,
{
    if m <= 1 { 0 } else { days_before_month(y, (m - 1) as nat) + month_length(y, m - 1) }
}

/// Day number of a date, counted from 0000-01-01 (day 0).
pub open spec fn day_number(y: nat, m: nat, d: nat) -> int {
    days_before_year(y) + days_before_month(y as int, m) + d - 1
}

pub open spec fn is_digit(c: char) -> bool {
    '0' <= c && c <= '9'
}

pub open spec fn digit_value(c: char) -> int {
    c as int - '0' as int
}

/// `s` has the shape `DDDD-DD-DD`, each `D` an ASCII digit.
pub open spec fn date_shape(s: Seq<char>) -> bool {
    &&& s.len() == 10
    &&& is_digit(s[0]) && is_digit(s[1]) && is_digit(s[2]) && is_digit(s[3])
    &&& s[4] == '-'
    &&& is_digit(s[5]) && is_digit(s[6])
    &&& s[7] == '-'
    &&& is_digit(s[8]) && is_digit(s[9])
}

pub open spec fn year_field(s: Seq<char>) -> int {
    1000 * digit_value(s[0]) + 100 * digit_value(s[1]) + 10 * digit_value(s[2]) + digit_value(
        s[3],
    )
}

pub open spec fn month_field(s: Seq<char>) -> int {
    10 * digit_value(s[5]) + digit_value(s[6])
}

pub open spec fn day_field(s: Seq<char>) -> int {
    10 * digit_value(s[8]) + digit_value(s[9])
}

pub open spec fn valid_ymd(y: int, m: int, d: int) -> bool {
    0 <= y && 1 <= m <= 12 && 1 <= d <= month_length(y, m)
}

/// `s` is a `YYYY-MM-DD` text naming a real calendar date.
pub open spec fn valid_date_text(s: Seq<char>) -> bool {
    date_shape(s) && valid_ymd(year_field(s), month_field(s), day_field(s))
}

/// A calendar date of the proleptic Gregorian calendar.
#[derive(PartialEq, Eq, Structural, Clone, Copy, Debug)]
pub struct CivilDate {
    pub year: u32,
    pub month: u32,
    pub day: u32,
}

impl CivilDate {
    pub open spec fn wf(&self) -> bool {
        self.year <= 9999 && valid_ymd(self.year as int, self.month as int, self.day as int)
    }

    /// Day number of this date, counted from 0000-01-01.
    pub open spec fn ordinal(&self) -> int {
        day_number(self.year as nat, self.month as nat, self.day as nat)
    }
}

proof fn lemma_days_before_year_bounds(y: nat)
    ensures
        365 * y <= days_before_year(y) <= 366 * y,
    decreases y,
{
    if y > 0 {
        lemma_days_before_year_bounds((y - 1) as nat);
    }
}

proof fn lemma_days_before_month_bounds(y: int, m: nat)
    requires
        m <= 13,
    ensures
        0 <= days_before_month(y, m) <= 31 * m,
        m >= 1 ==> days_before_month(y, m) <= 31 * (m - 1),
    decreases m,
{
    if m > 1 {
        lemma_days_before_month_bounds(y, (m - 1) as nat);
    }
}

/// Value of the ASCII digit at char position `i` of `s`, if it is one.
fn digit_at(s: &str, i: usize) -> (r: Option<u32>)
    requires
        i < s@.len(),
    ensures
        r is Some <==> is_digit(s@[i as int]),
        r matches Some(v) ==> v as int == digit_value(s@[i as int]) && v <= 9,
{
    let c = s.get_char(i);
    if '0' <= c && c <= '9' {
        Some((c as u32) - ('0' as u32))
    } else {
        None
    }
}

/// Number of days in month `m` of year `y`.
pub fn days_in_month(y: u32, m: u32) -> (r: u32)
    requires
        1 <= m <= 12,
    ensures
        r as int == month_length(y as int, m as int),
{
    if m == 2 {
        if is_leap_year(y) { 29 } else { 28 }
    } else if m == 4 || m == 6 || m == 9 || m == 11 {
        30
    } else {
        31
    }
}

/// Whether `y` is a leap year of the Gregorian calendar.
pub fn is_leap_year(y: u32) -> (r: bool)
    ensures
        r == is_leap(y as int),
{
    (y % 4 == 0 && y % 100 != 0) || y % 400 == 0
}

/// Parses a date written `YYYY-MM-DD`.
pub fn parse_date(s: &str) -> (r: Result<CivilDate, CalcError>)
    ensures
        r is Ok <==> valid_date_text(s@),
        r matches Ok(d) ==> d.wf() && d.year == year_field(s@) && d.month == month_field(s@)
            && d.day == day_field(s@),
        r matches Err(e) ==> e == CalcError::Parse,
{
    if s.unicode_len() != 10 {
        return Err(CalcError::Parse);
    }
    let y0 = digit_at(s, 0);
    let y1 = digit_at(s, 1);
    let y2 = digit_at(s, 2);
    let y3 = digit_at(s, 3);
    let m0 = digit_at(s, 5);
    let m1 = digit_at(s, 6);
    let d0 = digit_at(s, 8);
    let d1 = digit_at(s, 9);
    if s.get_char(4) != '-' || s.get_char(7) != '-' {
        return Err(CalcError::Parse);
    }
    match (y0, y1, y2, y3, m0, m1, d0, d1) {
        (Some(y0), Some(y1), Some(y2), Some(y3), Some(m0), Some(m1), Some(d0), Some(d1)) => {
            let year = 1000 * y0 + 100 * y1 + 10 * y2 + y3;
            let month = 10 * m0 + m1;
            let day = 10 * d0 + d1;
            if month < 1 || month > 12 {
                return Err(CalcError::Parse);
            }
            if day < 1 || day > days_in_month(year, month) {
                return Err(CalcError::Parse);
            }
            Ok(CivilDate { year, month, day })
        },
        _ => Err(CalcError::Parse),
    }
}

impl CivilDate {
    /// Day number of this date, counted from 0000-01-01 (day 0).
    pub fn ordinal_number(&self) -> (r: u32)
        requires
            self.wf(),
        ensures
            r as int == self.ordinal(),
    {
        let mut acc: u32 = 0;
        let mut y: u32 = 0;
        while y < self.year
            invariant
                y <= self.year <= 9999,
                acc as int == days_before_year(y as nat),
            decreases self.year - y,
        {
            proof {
                lemma_days_before_year_bounds((y + 1) as nat);
            }
            acc = acc + if is_leap_year(y) { 366 } else { 365 };
            y = y + 1;
        }
        proof {
            lemma_days_before_year_bounds(self.year as nat);
        }
        let mut m: u32 = 1;
        let ghost base = acc as int;
        while m < self.month
            invariant
                1 <= m <= self.month <= 12,
                self.year <= 9999,
                base == days_before_year(self.year as nat),
                base <= 366 * 9999,
                acc as int == base + days_before_month(self.year as int, m as nat),
            decreases self.month - m,
        {
            proof {
                lemma_days_before_month_bounds(self.year as int, (m + 1) as nat);
            }
            acc = acc + days_in_month(self.year, m);
            m = m + 1;
        }
        proof {
            lemma_days_before_month_bounds(self.year as int, m as nat);
        }
        acc + self.day - 1
    }

    /// Signed number of whole days from `self` to `target` (target minus self).
    pub fn days_until(&self, target: &CivilDate) -> (r: i64)
        requires
            self.wf(),
            target.wf(),
        ensures
            r as int == target.ordinal() - self.ordinal(),
    {
        let a = self.ordinal_number();
        let b = target.ordinal_number();
        b as i64 - a as i64
    }
}

/// Signed number of whole days from the date `anchor` to the date `target`,
/// both written `YYYY-MM-DD`.
pub fn days_between(anchor: &str, target: &str) -> (r: Result<i64, CalcError>)
    ensures
        r is Ok <==> valid_date_text(anchor@) && valid_date_text(target@),
        r matches Ok(n) ==> n == day_number(
            year_field(target@) as nat,
            month_field(target@) as nat,
            day_field(target@) as nat,
        ) - day_number(
            year_field(anchor@) as nat,
            month_field(anchor@) as nat,
            day_field(anchor@) as nat,
        ),
        r matches Err(e) ==> e == CalcError::Parse,
{
    let a = parse_date(anchor)?;
    let b = parse_date(target)?;
    Ok(a.days_until(&b))
}

} // verus!
