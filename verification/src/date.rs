//! Calendar days for the activity analytics engine.
//!
//! A `Date` is a calendar day in the proleptic Gregorian calendar, stored as
//! its day number: day 0 is the first of January of year 0, and every later
//! day adds one.  Day arithmetic ("the day before", "how many days apart")
//! is then plain integer arithmetic, which is what the streak and weekly
//! window computations need.
//!
//! Dates enter the system as `YYYY-MM-DD` strings; `parse_date` converts a
//! well-formed string into its day number and rejects anything else.

use vstd::prelude::*;

verus! {

/// A calendar day, identified by its day number (day 0 is 0000-01-01).
#[derive(Clone, Copy, PartialEq, Eq, Structural, Debug)]
pub struct Date {
    pub days: i64,
}

/// Largest day number a parsed date can have; 9999-12-31 is below this.
pub const DAY_NUMBER_LIMIT: i64 = 3700000;

impl Date {
    /// A day number that came from a real calendar date: non-negative and
    /// below the limit, so that small offsets never overflow.
    pub open spec fn wf(self) -> bool {
        0 <= self.days <= DAY_NUMBER_LIMIT
    }

    /// The day `n` days before this one.
    pub fn back(self, n: i64) -> (r: Date)
        requires
            self.wf(),
            0 <= n <= DAY_NUMBER_LIMIT,
        ensures
            r.days == self.days - n,
    {
        Date { days: self.days - n }
    }
}

/// Leap years: every fourth year, except centuries not divisible by 400.
pub open spec fn is_leap_year(y: int) -> bool {
    y % 4 == 0 && (y % 100 != 0 || y % 400 == 0)
}

pub open spec fn days_in_year(y: int) -> int {
    if is_leap_year(y) {
        366
    } else {
        365
    }
}

pub open spec fn days_in_month(y: int, m: int) -> int {
    if m == 2 {
        if is_leap_year(y) {
            29
        } else {
            28
        }
    } else if m == 4 || m == 6 || m == 9 || m == 11 {
        30
    } else {
        31
    }
}

/// Days in all years before year `y`, counted from year 0.
pub open spec fn days_before_year(y: int) -> int
    decreases y,
{
    if y <= 0 {
        0
    } else {
        days_before_year(y - 1) + days_in_year(y - 1)
    }
}

/// Days in the months of year `y` that precede month `m`.
pub open spec fn days_before_month(y: int, m: int) -> int
    decreases m,
{
    if m <= 1 {
        0
    } else {
        days_before_month(y, m - 1) + days_in_month(y, m - 1)
    }
}

/// Year/month/day triples the parser accepts: four-digit years only.
pub open spec fn valid_ymd(y: int, m: int, d: int) -> bool {
    &&& 0 <= y <= 9999
    &&& 1 <= m <= 12
    &&& 1 <= d <= days_in_month(y, m)
}

/// The day number of a calendar date.
pub open spec fn day_number(y: int, m: int, d: int) -> int {
    days_before_year(y) + days_before_month(y, m) + (d - 1)
}

proof fn lemma_days_before_year_bounds(y: int)
    requires
        0 <= y,
    ensures
        365 * y <= days_before_year(y) <= 366 * y,
    decreases y,
{
    if y > 0 {
        lemma_days_before_year_bounds(y - 1);
    }
}

proof fn lemma_days_before_month_bounds(y: int, m: int)
    requires
        1 <= m <= 13,
    ensures
        28 * (m - 1) <= days_before_month(y, m) <= 31 * (m - 1),
    decreases m,
{
    if m > 1 {
        lemma_days_before_month_bounds(y, m - 1);
    }
}

/// Every date the parser accepts has a well-formed day number.
pub proof fn lemma_day_number_in_range(y: int, m: int, d: int)
    requires
        valid_ymd(y, m, d),
    ensures
        0 <= day_number(y, m, d) <= DAY_NUMBER_LIMIT,
{
    lemma_days_before_year_bounds(y);
    lemma_days_before_month_bounds(y, m);
}

/// The calendar day after `(y, m, d)`.
pub open spec fn next_ymd(y: int, m: int, d: int) -> (int, int, int) {
    if d < days_in_month(y, m) {
        (y, m, d + 1)
    } else if m < 12 {
        (y, m + 1, 1)
    } else {
        (y + 1, 1, 1)
    }
}

/// All twelve months of year `y` together cover exactly the year.
proof fn lemma_months_cover_year(y: int)
    ensures
        days_before_month(y, 13) == days_in_year(y),
{
    assert(days_before_month(y, 1) == 0);
    assert(days_before_month(y, 2) == days_before_month(y, 1) + 31);
    assert(days_before_month(y, 3) == days_before_month(y, 2) + days_in_month(y, 2));
    assert(days_before_month(y, 4) == days_before_month(y, 3) + 31);
    assert(days_before_month(y, 5) == days_before_month(y, 4) + 30);
    assert(days_before_month(y, 6) == days_before_month(y, 5) + 31);
    assert(days_before_month(y, 7) == days_before_month(y, 6) + 30);
    assert(days_before_month(y, 8) == days_before_month(y, 7) + 31);
    assert(days_before_month(y, 9) == days_before_month(y, 8) + 31);
    assert(days_before_month(y, 10) == days_before_month(y, 9) + 30);
    assert(days_before_month(y, 11) == days_before_month(y, 10) + 31);
    assert(days_before_month(y, 12) == days_before_month(y, 11) + 30);
    assert(days_before_month(y, 13) == days_before_month(y, 12) + 31);
}

/// Law: stepping to the next calendar day adds exactly one to the day
/// number, across month ends and year ends alike — so "the previous day
/// number" always means "the previous calendar day".
pub proof fn lemma_day_number_succ(y: int, m: int, d: int)
    requires
        valid_ymd(y, m, d),
    ensures
        day_number(next_ymd(y, m, d).0, next_ymd(y, m, d).1, next_ymd(y, m, d).2) == day_number(
            y,
            m,
            d,
        ) + 1,
{
    if d < days_in_month(y, m) {
    } else if m < 12 {
        assert(days_before_month(y, m + 1) == days_before_month(y, m) + days_in_month(y, m));
    } else {
        lemma_months_cover_year(y);
        assert(days_before_month(y, 13) == days_before_month(y, 12) + 31);
        assert(days_before_year(y + 1) == days_before_year(y) + days_in_year(y));
    }
}

proof fn lemma_days_before_month_monotone(y: int, a: int, b: int)
    requires
        a <= b,
    ensures
        days_before_month(y, a) <= days_before_month(y, b),
    decreases b - a,
{
    if a < b {
        lemma_days_before_month_monotone(y, a, b - 1);
        if b >= 2 {
            assert(days_before_month(y, b) == days_before_month(y, b - 1) + days_in_month(
                y,
                b - 1,
            ));
        }
    }
}

proof fn lemma_days_before_year_monotone(a: int, b: int)
    requires
        0 <= a <= b,
    ensures
        days_before_year(a) <= days_before_year(b),
    decreases b - a,
{
    if a < b {
        lemma_days_before_year_monotone(a, b - 1);
    }
}

/// A date's day number stays inside its own year's days.
proof fn lemma_day_number_within_year(y: int, m: int, d: int)
    requires
        valid_ymd(y, m, d),
    ensures
        days_before_year(y) <= day_number(y, m, d) < days_before_year(y) + days_in_year(y),
{
    lemma_days_before_month_bounds(y, m);
    lemma_days_before_month_monotone(y, m + 1, 13);
    lemma_months_cover_year(y);
    assert(days_before_month(y, m + 1) == days_before_month(y, m) + days_in_month(y, m));
}

/// Law: day numbers are strictly increasing in calendar order, so two
/// distinct calendar dates never share a day number.
pub proof fn lemma_day_number_strictly_monotone(
    y1: int,
    m1: int,
    d1: int,
    y2: int,
    m2: int,
    d2: int,
)
    requires
        valid_ymd(y1, m1, d1),
        valid_ymd(y2, m2, d2),
        (y1 < y2) || (y1 == y2 && m1 < m2) || (y1 == y2 && m1 == m2 && d1 < d2),
    ensures
        day_number(y1, m1, d1) < day_number(y2, m2, d2),
{
    if y1 < y2 {
        lemma_day_number_within_year(y1, m1, d1);
        lemma_day_number_within_year(y2, m2, d2);
        assert(days_before_year(y1 + 1) == days_before_year(y1) + days_in_year(y1));
        lemma_days_before_year_monotone(y1 + 1, y2);
    } else if m1 < m2 {
        assert(days_before_month(y1, m1 + 1) == days_before_month(y1, m1) + days_in_month(
            y1,
            m1,
        ));
        lemma_days_before_month_monotone(y1, m1 + 1, m2);
    }
}

fn is_leap_year_exec(y: i64) -> (r: bool)
    requires
        0 <= y,
    ensures
        r == is_leap_year(y as int),
{
    y % 4 == 0 && (y % 100 != 0 || y % 400 == 0)
}

fn days_in_month_exec(y: i64, m: i64) -> (r: i64)
    requires
        0 <= y,
        1 <= m <= 12,
    ensures
        r == days_in_month(y as int, m as int),
{
    if m == 2 {
        if is_leap_year_exec(y) {
            29
        } else {
            28
        }
    } else if m == 4 || m == 6 || m == 9 || m == 11 {
        30
    } else {
        31
    }
}

/// Build a `Date` from a year/month/day triple, rejecting invalid triples.
pub fn from_ymd(y: i64, m: i64, d: i64) -> (r: Option<Date>)
    ensures
        valid_ymd(y as int, m as int, d as int) ==> r == Some(
            Date { days: day_number(y as int, m as int, d as int) as i64 },
        ),
        !valid_ymd(y as int, m as int, d as int) ==> r is None,
        r matches Some(date) ==> date.wf(),
{
    if y < 0 || y > 9999 || m < 1 || m > 12 {
        return None;
    }
    if d < 1 || d > days_in_month_exec(y, m) {
        return None;
    }
    proof {
        lemma_day_number_in_range(y as int, m as int, d as int);
        lemma_days_before_year_bounds(y as int);
        lemma_days_before_month_bounds(y as int, m as int);
    }
    let mut acc: i64 = 0;
    let mut yy: i64 = 0;
    while yy < y
        invariant
            0 <= yy <= y <= 9999,
            acc == days_before_year(yy as int),
            0 <= acc <= 366 * yy,
        decreases y - yy,
    {
        acc = acc + if is_leap_year_exec(yy) {
            366
        } else {
            365
        };
        yy = yy + 1;
    }
    let mut mm: i64 = 1;
    while mm < m
        invariant
            0 <= y <= 9999,
            1 <= mm <= m <= 12,
            acc == days_before_year(y as int) + days_before_month(y as int, mm as int),
            0 <= acc <= 366 * y + 31 * mm,
        decreases m - mm,
    {
        acc = acc + days_in_month_exec(y, mm);
        mm = mm + 1;
    }
    Some(Date { days: acc + (d - 1) })
}

/// Decimal digit characters.
pub open spec fn is_dec_digit(c: char) -> bool {
    48 <= c as int <= 57
}

/// The numeric value of a decimal digit character.
pub open spec fn digit_value(c: char) -> int {
    c as int - 48
}

/// The shape of an ISO `YYYY-MM-DD` string: four digits, dash, two digits,
/// dash, two digits.
pub open spec fn date_str_shape(s: Seq<char>) -> bool {
    &&& s.len() == 10
    &&& is_dec_digit(s[0]) && is_dec_digit(s[1]) && is_dec_digit(s[2]) && is_dec_digit(s[3])
    &&& s[4] == '-'
    &&& is_dec_digit(s[5]) && is_dec_digit(s[6])
    &&& s[7] == '-'
    &&& is_dec_digit(s[8]) && is_dec_digit(s[9])
}

pub open spec fn year_of(s: Seq<char>) -> int {
    digit_value(s[0]) * 1000 + digit_value(s[1]) * 100 + digit_value(s[2]) * 10 + digit_value(
        s[3],
    )
}

pub open spec fn month_of(s: Seq<char>) -> int {
    digit_value(s[5]) * 10 + digit_value(s[6])
}

pub open spec fn day_of(s: Seq<char>) -> int {
    digit_value(s[8]) * 10 + digit_value(s[9])
}

/// What `parse_date` returns: the date of an ISO `YYYY-MM-DD` string that
/// names a real calendar day, and nothing for any other string.
pub open spec fn parse_date_spec(s: Seq<char>) -> Option<Date> {
    if date_str_shape(s) && valid_ymd(year_of(s), month_of(s), day_of(s)) {
        Some(Date { days: day_number(year_of(s), month_of(s), day_of(s)) as i64 })
    } else {
        None
    }
}

fn digit_of(c: char) -> (r: Option<i64>)
    ensures
        is_dec_digit(c) ==> r == Some((digit_value(c)) as i64),
        !is_dec_digit(c) ==> r is None,
{
    let u = c as u32;
    if 48 <= u && u <= 57 {
        Some((u - 48) as i64)
    } else {
        None
    }
}

/// Parse an ISO `YYYY-MM-DD` string into a calendar day.  Strings of any
/// other shape, and strings naming an impossible date, yield `None`.
pub fn parse_date(s: &str) -> (r: Option<Date>)
    ensures
        r == parse_date_spec(s@),
        r matches Some(date) ==> date.wf(),
{
    if s.unicode_len() != 10 {
        return None;
    }
    if s.get_char(4) != '-' || s.get_char(7) != '-' {
        return None;
    }
    let y0 = match digit_of(s.get_char(0)) {
        Some(v) => v,
        None => {
            return None;
        },
    };
    let y1 = match digit_of(s.get_char(1)) {
        Some(v) => v,
        None => {
            return None;
        },
    };
    let y2 = match digit_of(s.get_char(2)) {
        Some(v) => v,
        None => {
            return None;
        },
    };
    let y3 = match digit_of(s.get_char(3)) {
        Some(v) => v,
        None => {
            return None;
        },
    };
    let m0 = match digit_of(s.get_char(5)) {
        Some(v) => v,
        None => {
            return None;
        },
    };
    let m1 = match digit_of(s.get_char(6)) {
        Some(v) => v,
        None => {
            return None;
        },
    };
    let d0 = match digit_of(s.get_char(8)) {
        Some(v) => v,
        None => {
            return None;
        },
    };
    let d1 = match digit_of(s.get_char(9)) {
        Some(v) => v,
        None => {
            return None;
        },
    };
    let y = y0 * 1000 + y1 * 100 + y2 * 10 + y3;
    let m = m0 * 10 + m1;
    let d = d0 * 10 + d1;
    from_ymd(y, m, d)
}

} // verus!
