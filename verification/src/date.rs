//! [`Date`] — EN 16931 `Date. Type`, a calendar day with no time of day.
//!
//! §6.5.9: dates follow the ISO 8601 "calendar date complete representation",
//! and *"calendar dates do not include a specification for the time of the
//! day"*. So a date is three integers, not an instant, and there is no
//! timezone to offset.

use vstd::prelude::*;

use crate::amount::{all_digits, digit_value, digits_only, digits_to_i64, digits_value, is_digit};
use crate::error::ParseDateError;
use chrono::Datelike;
use time::Date as CivilDate;
use crate::text::{chars_of, push_zero_padded, string_of, zero_padded};

verus! {

// ── The proleptic Gregorian calendar ──────────────────────────────────────────

/// Whether `y` is a leap year in the proleptic Gregorian calendar.
pub open spec fn is_leap_year(y: int) -> bool {
    (y % 4 == 0 && y % 100 != 0) || y % 400 == 0
}

/// The length of month `m` of year `y`; zero for a month outside 1–12.
pub open spec fn month_length(y: int, m: int) -> int {
    if m == 2 {
        if is_leap_year(y) {
            29
        } else {
            28
        }
    } else if m == 4 || m == 6 || m == 9 || m == 11 {
        30
    } else if 1 <= m <= 12 {
        31
    } else {
        0
    }
}

/// Whether `(y, m, d)` names a day, with the year in `i32`.
pub open spec fn valid_ymd(y: int, m: int, d: int) -> bool {
    &&& i32::MIN <= y <= i32::MAX
    &&& 1 <= m <= 12
    &&& 1 <= d <= month_length(y, m)
}

/// How many leap years there are in `1..=y` (counted with sign for `y < 0`).
pub open spec fn leaps_through(y: int) -> int {
    y / 4 - y / 100 + y / 400
}

/// Days from 1970-01-01 to the first day of year `y`.
pub open spec fn days_before_year(y: int) -> int {
    365 * (y - 1970) + leaps_through(y - 1) - leaps_through(1969)
}

/// Days from the first of January of `y` to the first day of month `m`.
pub open spec fn days_before_month(y: int, m: int) -> int {
    let l: int = if is_leap_year(y) {
        1
    } else {
        0
    };
    if m <= 1 {
        0
    } else if m == 2 {
        31
    } else if m == 3 {
        59 + l
    } else if m == 4 {
        90 + l
    } else if m == 5 {
        120 + l
    } else if m == 6 {
        151 + l
    } else if m == 7 {
        181 + l
    } else if m == 8 {
        212 + l
    } else if m == 9 {
        243 + l
    } else if m == 10 {
        273 + l
    } else if m == 11 {
        304 + l
    } else if m == 12 {
        334 + l
    } else {
        365 + l
    }
}

/// Days since 1970-01-01 of the day `(y, m, d)`, negative before it.
pub open spec fn day_number(y: int, m: int, d: int) -> int {
    days_before_year(y) + days_before_month(y, m) + d - 1
}

/// The number of days in year `y`.
pub open spec fn year_length(y: int) -> int {
    if is_leap_year(y) {
        366
    } else {
        365
    }
}

/// Stepping `y - 1` to `y` moves `y / d` by one exactly when `d` divides `y`.
proof fn lemma_div_step(y: int, d: int)
    requires
        d > 0,
    ensures
        y / d - (y - 1) / d == (if y % d == 0 {
            1int
        } else {
            0int
        }),
{
    let q = (y - 1) / d;
    let r = (y - 1) % d;
    vstd::arithmetic::div_mod::lemma_fundamental_div_mod(y - 1, d);
    assert(y - 1 == d * q + r);
    assert(0 <= r < d) by {
        vstd::arithmetic::div_mod::lemma_mod_bound(y - 1, d);
    }
    assert(d * q == q * d) by (nonlinear_arith);
    if r == d - 1 {
        assert(y == (q + 1) * d + 0) by (nonlinear_arith)
            requires
                y - 1 == d * q + r,
                r == d - 1,
        ;
        vstd::arithmetic::div_mod::lemma_fundamental_div_mod_converse(y, d, q + 1, 0);
    } else {
        assert(y == q * d + (r + 1));
        vstd::arithmetic::div_mod::lemma_fundamental_div_mod_converse(y, d, q, r + 1);
    }
}

/// A multiple of `a * b` is a multiple of `a`.
proof fn lemma_multiple(y: int, a: int, b: int)
    requires
        a > 0,
        b > 0,
        y % (a * b) == 0,
    ensures
        y % a == 0,
{
    assert(a * b > 0) by (nonlinear_arith)
        requires
            a > 0,
            b > 0,
    ;
    vstd::arithmetic::div_mod::lemma_fundamental_div_mod(y, a * b);
    let k = y / (a * b);
    assert(y == (k * b) * a + 0) by (nonlinear_arith)
        requires
            y == (a * b) * k + 0,
    ;
    vstd::arithmetic::div_mod::lemma_fundamental_div_mod_converse(y, a, k * b, 0);
}

/// Consecutive years are a year's length apart.
pub proof fn lemma_year_step(y: int)
    ensures
        days_before_year(y + 1) == days_before_year(y) + year_length(y),
{
    lemma_div_step(y, 4);
    lemma_div_step(y, 100);
    lemma_div_step(y, 400);
    if y % 400 == 0 {
        lemma_multiple(y, 100, 4);
        lemma_multiple(y, 4, 100);
    } else if y % 100 == 0 {
        lemma_multiple(y, 4, 25);
    }
}

/// Later years start later: `y < z` puts all of `y` before the start of `z`.
pub proof fn lemma_years_ordered(y: int, z: int)
    requires
        y < z,
    ensures
        days_before_year(y + 1) <= days_before_year(z),
        days_before_year(y) < days_before_year(z),
    decreases z - y,
{
    lemma_year_step(y);
    if y + 1 < z {
        lemma_years_ordered(y + 1, z);
    }
}

/// The months partition the year: each starts where the last one ends.
pub proof fn lemma_month_step(y: int, m: int)
    requires
        1 <= m <= 12,
    ensures
        days_before_month(y, m + 1) == days_before_month(y, m) + month_length(y, m),
        days_before_month(y, 13) == year_length(y),
{
}

/// Later months of a year start later.
pub proof fn lemma_months_ordered(y: int, m: int, n: int)
    requires
        1 <= m < n <= 13,
    ensures
        days_before_month(y, m + 1) <= days_before_month(y, n),
        days_before_month(y, m) < days_before_month(y, n),
{
}

/// A day lies inside its own year and month.
pub proof fn lemma_day_in_year(y: int, m: int, d: int)
    requires
        valid_ymd(y, m, d),
    ensures
        days_before_year(y) <= day_number(y, m, d) < days_before_year(y + 1),
        days_before_month(y, m) <= day_number(y, m, d) - days_before_year(y) < days_before_month(
            y,
            m + 1,
        ),
{
    lemma_year_step(y);
    lemma_month_step(y, m);
    if m < 12 {
        lemma_months_ordered(y, m + 1, 13);
    }
}

/// **Distinct days have distinct day numbers** — the calendar is a bijection
/// onto the days it numbers.
pub proof fn lemma_epoch_day_injective(y1: int, m1: int, d1: int, y2: int, m2: int, d2: int)
    requires
        valid_ymd(y1, m1, d1),
        valid_ymd(y2, m2, d2),
        day_number(y1, m1, d1) == day_number(y2, m2, d2),
    ensures
        y1 == y2 && m1 == m2 && d1 == d2,
{
    lemma_day_in_year(y1, m1, d1);
    lemma_day_in_year(y2, m2, d2);
    if y1 < y2 {
        lemma_years_ordered(y1, y2);
    } else if y2 < y1 {
        lemma_years_ordered(y2, y1);
    }
    assert(y1 == y2);
    if m1 < m2 {
        lemma_months_ordered(y1, m1, m2);
    } else if m2 < m1 {
        lemma_months_ordered(y1, m2, m1);
    }
}

/// **Later days have larger day numbers**: day numbers order days
/// chronologically.
pub proof fn lemma_epoch_day_monotone(y1: int, m1: int, d1: int, y2: int, m2: int, d2: int)
    requires
        valid_ymd(y1, m1, d1),
        valid_ymd(y2, m2, d2),
        (y1, m1, d1) != (y2, m2, d2),
        y1 < y2 || (y1 == y2 && m1 < m2) || (y1 == y2 && m1 == m2 && d1 < d2),
    ensures
        day_number(y1, m1, d1) < day_number(y2, m2, d2),
{
    lemma_day_in_year(y1, m1, d1);
    lemma_day_in_year(y2, m2, d2);
    if y1 < y2 {
        lemma_years_ordered(y1, y2);
    } else if m1 < m2 {
        lemma_months_ordered(y1, m1, m2);
    }
}

// ── Date ──────────────────────────────────────────────────────────────────────

/// A calendar day — EN 16931-1 §6.5.9 `Date. Type`.
///
/// Proleptic Gregorian, validated on construction. The derived order compares
/// year, then month, then day, which is chronological order exactly.
#[derive(Debug, Clone, Copy, PartialEq, Eq, PartialOrd, Ord, Hash, Structural)]
pub struct Date {
    year: i32,
    month: u8,
    day: u8,
}

impl Date {
    /// A date always names a real day.
    #[verifier::type_invariant]
    spec fn is_day(self) -> bool {
        valid_ymd(self.year as int, self.month as int, self.day as int)
    }

    /// The year.
    pub closed spec fn spec_year(self) -> int {
        self.year as int
    }

    /// The month, 1–12.
    pub closed spec fn spec_month(self) -> int {
        self.month as int
    }

    /// The day of the month.
    pub closed spec fn spec_day(self) -> int {
        self.day as int
    }

    /// Days since 1970-01-01.
    pub open spec fn spec_epoch_day(self) -> int {
        day_number(self.spec_year(), self.spec_month(), self.spec_day())
    }

    /// Whether `self` is no later than `other`.
    pub open spec fn not_after(self, other: Date) -> bool {
        ||| self.spec_year() < other.spec_year()
        ||| self.spec_year() == other.spec_year() && self.spec_month() < other.spec_month()
        ||| self.spec_year() == other.spec_year() && self.spec_month() == other.spec_month()
            && self.spec_day() <= other.spec_day()
    }

    /// Two dates are equal exactly when their parts are.
    pub proof fn lemma_parts_eq(a: Date, b: Date)
        ensures
            (a.spec_year() == b.spec_year() && a.spec_month() == b.spec_month() && a.spec_day()
                == b.spec_day()) <==> a == b,
    {
    }

    /// Construct from parts, validating that the day exists.
    pub fn new(year: i32, month: u8, day: u8) -> (r: Result<Date, ParseDateError>)
        ensures
            r is Ok <==> valid_ymd(year as int, month as int, day as int),
            r matches Ok(d) ==> d.spec_year() == year && d.spec_month() == month && d.spec_day()
                == day,
            r matches Err(e) ==> e == (ParseDateError::NotACalendarDay { year, month, day }),
    {
        if month == 0 || month > 12 || day == 0 || day > days_in_month(year, month) {
            return Err(ParseDateError::NotACalendarDay { year, month, day });
        }
        Ok(Date { year, month, day })
    }

    /// The year.
    pub fn year(self) -> (r: i32)
        ensures
            r == self.spec_year(),
    {
        self.year
    }

    /// The month, 1–12.
    pub fn month(self) -> (r: u8)
        ensures
            r == self.spec_month(),
            1 <= r <= 12,
    {
        proof {
            use_type_invariant(&self);
        }
        self.month
    }

    /// The day of the month.
    pub fn day(self) -> (r: u8)
        ensures
            r == self.spec_day(),
            1 <= r <= month_length(self.spec_year(), self.spec_month()),
    {
        proof {
            use_type_invariant(&self);
        }
        self.day
    }

    /// Every date names a real day.
    pub fn is_valid(self) -> (b: bool)
        ensures
            b,
            valid_ymd(self.spec_year(), self.spec_month(), self.spec_day()),
    {
        proof {
            use_type_invariant(&self);
        }
        true
    }
}

/// Whether `year` is a leap year.
fn is_leap(year: i32) -> (b: bool)
    ensures
        b == is_leap_year(year as int),
{
    is_leap_wide(year as i128)
}

/// Length of `month` in `year`.
fn days_in_month(year: i32, month: u8) -> (r: u8)
    ensures
        r == month_length(year as int, month as int),
{
    if month == 1 || month == 3 || month == 5 || month == 7 || month == 8 || month == 10 || month
        == 12 {
        31
    } else if month == 4 || month == 6 || month == 9 || month == 11 {
        30
    } else if month == 2 {
        if is_leap(year) {
            29
        } else {
            28
        }
    } else {
        0
    }
}


// ── Day numbers ───────────────────────────────────────────────────────────────

/// Whether `(y, m, d)` names a day of the calendar, whatever the year.
pub open spec fn calendar_day(y: int, m: int, d: int) -> bool {
    1 <= m <= 12 && 1 <= d <= month_length(y, m)
}

/// Shifting by a multiple of `d` shifts the quotient by the multiple.
proof fn lemma_div_shift(y: int, d: int, t: int)
    requires
        d > 0,
    ensures
        (y + d * t) / d == y / d + t,
{
    vstd::arithmetic::div_mod::lemma_fundamental_div_mod(y, d);
    vstd::arithmetic::div_mod::lemma_mod_bound(y, d);
    let q = y / d;
    let r = y % d;
    assert(y + d * t == (q + t) * d + r) by (nonlinear_arith)
        requires
            y == d * q + r,
    ;
    vstd::arithmetic::div_mod::lemma_fundamental_div_mod_converse(y + d * t, d, q + t, r);
}

/// Four hundred years are exactly 146 097 days.
pub proof fn lemma_era(y: int)
    ensures
        days_before_year(y + 400) == days_before_year(y) + 146097,
{
    lemma_div_shift(y - 1, 4, 100);
    lemma_div_shift(y - 1, 100, 4);
    lemma_div_shift(y - 1, 400, 1);
}

/// Era `k` after 1970 starts on day `146097 k`.
pub proof fn lemma_era_start(k: int)
    ensures
        days_before_year(1970 + 400 * k) == 146097 * k,
    decreases (if k < 0 {
        -k
    } else {
        k
    }),
{
    if k > 0 {
        lemma_era_start(k - 1);
        lemma_era(1970 + 400 * (k - 1));
    } else if k < 0 {
        lemma_era_start(k + 1);
        lemma_era(1970 + 400 * k);
    }
}

/// Every day of the calendar lies in one year and one month.
pub proof fn lemma_calendar_injective(y1: int, m1: int, d1: int, y2: int, m2: int, d2: int)
    requires
        calendar_day(y1, m1, d1),
        calendar_day(y2, m2, d2),
        day_number(y1, m1, d1) == day_number(y2, m2, d2),
    ensures
        y1 == y2 && m1 == m2 && d1 == d2,
{
    lemma_year_step(y1);
    lemma_year_step(y2);
    lemma_month_step(y1, m1);
    lemma_month_step(y2, m2);
    if m1 < 12 {
        lemma_months_ordered(y1, m1 + 1, 13);
    }
    if m2 < 12 {
        lemma_months_ordered(y2, m2 + 1, 13);
    }
    if y1 < y2 {
        lemma_years_ordered(y1, y2);
    } else if y2 < y1 {
        lemma_years_ordered(y2, y1);
    }
    if m1 < m2 {
        lemma_months_ordered(y1, m1, m2);
    } else if m2 < m1 {
        lemma_months_ordered(y1, m2, m1);
    }
}

/// `days_before_year(y)` for a year of at most sixteen digits.
fn days_before_year_exec(y: i128) -> (r: i128)
    requires
        -40_000_000_000_000_000 < y < 40_000_000_000_000_000,
    ensures
        r == days_before_year(y as int),
{
    // Shifted by a multiple of 400 to a non-negative value, so that the
    // divisions below are floor divisions.
    let k: i128 = 40_000_000_000_000_000;
    let a: u128 = (y - 1 + k) as u128;
    proof {
        lemma_div_shift(y - 1, 4, 10_000_000_000_000_000);
        lemma_div_shift(y - 1, 100, 400_000_000_000_000);
        lemma_div_shift(y - 1, 400, 100_000_000_000_000);
    }
    let leaps: i128 = (a / 4) as i128 - (a / 100) as i128 + (a / 400) as i128
        - 9_700_000_000_000_000;
    assert(leaps == leaps_through(y - 1));
    365 * (y - 1970) + leaps - 477
}

/// Whether `y` is a leap year, for a year of at most sixteen digits.
fn is_leap_wide(y: i128) -> (b: bool)
    requires
        -40_000_000_000_000_000 < y < 40_000_000_000_000_000,
    ensures
        b == is_leap_year(y as int),
{
    let a: u128 = (y + 40_000_000_000_000_000) as u128;
    proof {
        lemma_div_shift(y as int, 4, 10_000_000_000_000_000);
        lemma_div_shift(y as int, 100, 400_000_000_000_000);
        lemma_div_shift(y as int, 400, 100_000_000_000_000);
        vstd::arithmetic::div_mod::lemma_fundamental_div_mod(y as int, 4);
        vstd::arithmetic::div_mod::lemma_fundamental_div_mod(a as int, 4);
        vstd::arithmetic::div_mod::lemma_fundamental_div_mod(y as int, 100);
        vstd::arithmetic::div_mod::lemma_fundamental_div_mod(a as int, 100);
        vstd::arithmetic::div_mod::lemma_fundamental_div_mod(y as int, 400);
        vstd::arithmetic::div_mod::lemma_fundamental_div_mod(a as int, 400);
    }
    (a % 4 == 0 && a % 100 != 0) || a % 400 == 0
}

/// `days_before_month(y, m)` for `1 <= m <= 12`.
fn days_before_month_exec(leap: bool, m: u8) -> (r: i128)
    requires
        1 <= m <= 12,
    ensures
        forall|y: int| is_leap_year(y) == leap ==> r == days_before_month(y, m as int),
{
    let l: i128 = if leap {
        1
    } else {
        0
    };
    if m == 1 {
        0
    } else if m == 2 {
        31
    } else if m == 3 {
        59 + l
    } else if m == 4 {
        90 + l
    } else if m == 5 {
        120 + l
    } else if m == 6 {
        151 + l
    } else if m == 7 {
        181 + l
    } else if m == 8 {
        212 + l
    } else if m == 9 {
        243 + l
    } else if m == 10 {
        273 + l
    } else if m == 11 {
        304 + l
    } else {
        334 + l
    }
}

/// The date, or the reason there is none, for day number `n`.
pub open spec fn from_epoch_day_outcome(n: int, r: Result<Date, ParseDateError>) -> bool {
    &&& r matches Ok(d) ==> d.spec_epoch_day() == n && valid_ymd(
        d.spec_year(),
        d.spec_month(),
        d.spec_day(),
    )
    &&& r is Err <==> forall|y: int, m: int, d: int|
        #![trigger day_number(y, m, d)]
        valid_ymd(y, m, d) ==> day_number(y, m, d) != n
    &&& r matches Err(e) ==> e matches ParseDateError::NotACalendarDay { year, month, day }
        && year == i32::MAX && exists|y: int|
        #![trigger day_number(y, month as int, day as int)]
        calendar_day(y, month as int, day as int) && day_number(y, month as int, day as int) == n
}

impl Date {
    /// Days since 1970-01-01, negative before it.
    pub fn to_epoch_day(self) -> (r: i64)
        ensures
            r == self.spec_epoch_day(),
            -800_000_000_000 < r < 800_000_000_000,
    {
        proof {
            use_type_invariant(&self);
            lemma_day_in_year(self.year as int, self.month as int, self.day as int);
            lemma_era_start(-5_400_000int);
            lemma_era_start(5_400_000int);
            if (self.year as int) < 1970int + 400int * 5_400_000int {
                lemma_years_ordered(self.year as int, 1970int + 400int * 5_400_000int);
            }
            if 1970int + 400int * -5_400_000int < (self.year as int) {
                lemma_years_ordered(1970int + 400int * -5_400_000int, self.year as int);
            }
            lemma_year_step(self.year as int);
        }
        let y = self.year as i128;
        let leap = is_leap_wide(y);
        let r = days_before_year_exec(y) + days_before_month_exec(leap, self.month) + self.day as i128 - 1;
        r as i64
    }

    /// Days from `self` to `other`; negative if `other` is earlier.
    pub fn days_until(self, other: Date) -> (r: i64)
        ensures
            r == other.spec_epoch_day() - self.spec_epoch_day(),
    {
        let a = self.to_epoch_day();
        let b = other.to_epoch_day();
        proof {
            use_type_invariant(&self);
            use_type_invariant(&other);
        }
        b - a
    }
}


/// The length of month `m`, given whether the year is a leap year.
fn month_length_exec(leap: bool, m: u8) -> (r: i128)
    requires
        1 <= m <= 12,
    ensures
        forall|y: int| is_leap_year(y) == leap ==> r == month_length(y, m as int),
{
    if m == 2 {
        if leap {
            29
        } else {
            28
        }
    } else if m == 4 || m == 6 || m == 9 || m == 11 {
        30
    } else {
        31
    }
}

/// The number of days in year `y`.
fn year_length_exec(y: i128) -> (r: i128)
    requires
        -40_000_000_000_000_000 < y < 40_000_000_000_000_000,
    ensures
        r == year_length(y as int),
{
    if is_leap_wide(y) {
        366
    } else {
        365
    }
}

/// The year holding day `n`, as `(year, days from 1970-01-01 to its start)`.
fn year_of_day(n: i128) -> (r: (i128, i128))
    requires
        i64::MIN <= n <= i64::MAX,
    ensures
        r.1 == days_before_year(r.0 as int),
        r.1 <= n < r.1 + year_length(r.0 as int),
        -30_000_000_000_000_000 < r.0 < 30_000_000_000_000_000,
{
    let m_off: i128 = 70_000_000_000_000;
    let shifted: u128 = (n + 146097 * m_off) as u128;
    proof {
        lemma_div_shift(n as int, 146097, m_off as int);
        vstd::arithmetic::div_mod::lemma_fundamental_div_mod(n as int, 146097);
        vstd::arithmetic::div_mod::lemma_mod_bound(n as int, 146097);
    }
    let k: i128 = (shifted / 146097) as i128 - m_off;
    assert(k == (n as int) / 146097);
    let rem: i128 = n - 146097 * k;
    assert(0 <= rem < 146097);
    let base: i128 = 1970 + 400 * k;
    proof {
        lemma_era_start(k as int);
        lemma_era(base as int);
    }
    let mut r: i128 = 0;
    let mut acc: i128 = 0;
    while r < 400 && acc + year_length_exec(base + r) <= rem
        invariant
            0 <= r <= 400,
            -27_000_000_000_000_000 < base < 27_000_000_000_000_000,
            acc == days_before_year(base + r) - days_before_year(base as int),
            0 <= acc <= rem < 146097,
            days_before_year(base + 400) == days_before_year(base as int) + 146097,
        decreases 400 - r,
    {
        proof {
            lemma_year_step(base + r);
        }
        acc = acc + year_length_exec(base + r);
        r = r + 1;
    }
    proof {
        lemma_year_step(base + r);
    }
    let y = base + r;
    (y, days_before_year_exec(y))
}

impl Date {
    /// The calendar day `epoch_day` days after 1970-01-01.
    ///
    /// An error only for a day so far out that its year does not fit an
    /// `i32`; the error then carries `i32::MAX` and the day's month and day.
    pub fn from_epoch_day(epoch_day: i64) -> (r: Result<Date, ParseDateError>)
        ensures
            from_epoch_day_outcome(epoch_day as int, r),
    {
        let n = epoch_day as i128;
        let (y, start) = year_of_day(n);
        let rest = n - start;
        let leap = is_leap_wide(y);
        let mut mo: u8 = 1;
        let mut acc: i128 = 0;
        while mo < 12 && acc + month_length_exec(leap, mo) <= rest
            invariant
                1 <= mo <= 12,
                leap == is_leap_year(y as int),
                acc == days_before_month(y as int, mo as int),
                0 <= acc <= rest < year_length(y as int),
            decreases 12 - mo,
        {
            proof {
                lemma_month_step(y as int, mo as int);
            }
            acc = acc + month_length_exec(leap, mo);
            mo = mo + 1;
        }
        proof {
            lemma_month_step(y as int, mo as int);
        }
        let day = rest - acc + 1;
        assert(calendar_day(y as int, mo as int, day as int));
        assert(day_number(y as int, mo as int, day as int) == n);
        if -2147483648 <= y && y <= 2147483647 {
            let d = Date { year: y as i32, month: mo, day: day as u8 };
            assert(d.spec_epoch_day() == n);
            assert(valid_ymd(y as int, mo as int, day as int));
            let r: Result<Date, ParseDateError> = Ok(d);
            assert(!(forall|y2: int, m2: int, d2: int|
                #![trigger day_number(y2, m2, d2)]
                valid_ymd(y2, m2, d2) ==> day_number(y2, m2, d2) != n));
            assert(from_epoch_day_outcome(n as int, r));
            r
        } else {
            proof {
                assert forall|y2: int, m2: int, d2: int|
                    #![trigger day_number(y2, m2, d2)]
                    valid_ymd(y2, m2, d2) implies day_number(y2, m2, d2) != n by {
                    if day_number(y2, m2, d2) == n {
                        lemma_calendar_injective(y as int, mo as int, day as int, y2, m2, d2);
                    }
                }
            }
            let e = ParseDateError::NotACalendarDay { year: i32::MAX, month: mo, day: day as u8 };
            assert(calendar_day(y as int, mo as int, (day as u8) as int));
            let r: Result<Date, ParseDateError> = Err(e);
            assert(day_number(y as int, mo as int, (day as u8) as int) == n);
            assert(e matches ParseDateError::NotACalendarDay { year, month, day: d8 } && year
                == i32::MAX && month == mo && d8 == day);
            assert(from_epoch_day_outcome(n as int, r));
            r
        }
    }

    /// This day, `days` later; negative `days` goes backwards.
    ///
    /// `None` only when the result's year does not fit an `i32`.
    pub fn checked_add_days(self, days: i32) -> (r: Option<Date>)
        ensures
            r matches Some(e) ==> e.spec_epoch_day() == self.spec_epoch_day() + days,
            r is None <==> forall|y: int, m: int, d: int|
                #![trigger day_number(y, m, d)]
                valid_ymd(y, m, d) ==> day_number(y, m, d) != self.spec_epoch_day() + days,
    {
        let n = self.to_epoch_day() + days as i64;
        match Date::from_epoch_day(n) {
            Ok(d) => Some(d),
            Err(_) => None,
        }
    }
}

/// **The day numbers are a bijection**: turning a date into its day number
/// and back gives the same date.
pub proof fn lemma_epoch_round_trip(d: Date, r: Result<Date, ParseDateError>)
    requires
        valid_ymd(d.spec_year(), d.spec_month(), d.spec_day()),
        from_epoch_day_outcome(d.spec_epoch_day(), r),
    ensures
        r == Ok::<Date, ParseDateError>(d),
{
    assert(day_number(d.spec_year(), d.spec_month(), d.spec_day()) == d.spec_epoch_day());
    let e = r->Ok_0;
    lemma_calendar_injective(
        d.spec_year(),
        d.spec_month(),
        d.spec_day(),
        e.spec_year(),
        e.spec_month(),
        e.spec_day(),
    );
    Date::lemma_parts_eq(d, e);
}


// ── Text ──────────────────────────────────────────────────────────────────────

/// `YYYY-MM-DD`: ten characters, hyphens at 4 and 7, digits elsewhere.
pub open spec fn date_shape(s: Seq<char>) -> bool {
    &&& s.len() == 10
    &&& s[4] == '-'
    &&& s[7] == '-'
    &&& all_digits(s.subrange(0, 4))
    &&& all_digits(s.subrange(5, 7))
    &&& all_digits(s.subrange(8, 10))
}

/// The year, month and day a well-shaped date text spells.
pub open spec fn date_parts(s: Seq<char>) -> (int, int, int) {
    (
        digits_value(s.subrange(0, 4)),
        digits_value(s.subrange(5, 7)),
        digits_value(s.subrange(8, 10)),
    )
}

/// `YYYY-MM-DD`, as `{:04}-{:02}-{:02}` writes the parts.
pub open spec fn date_text(y: int, m: int, d: int) -> Seq<char> {
    zero_padded(y, 4) + seq!['-'] + zero_padded(m, 2) + seq!['-'] + zero_padded(d, 2)
}

/// A run of `n` digits is less than `10^n`.
proof fn lemma_digits_below(s: Seq<char>)
    requires
        all_digits(s),
    ensures
        0 <= digits_value(s) < crate::decimal::pow10(s.len()),
    decreases s.len(),
{
    if s.len() > 0 {
        let t = s.drop_last();
        assert(all_digits(t)) by {
            assert forall|i: int| 0 <= i < t.len() implies is_digit(#[trigger] t[i]) by {
                assert(t[i] == s[i]);
            }
        }
        lemma_digits_below(t);
        assert(is_digit(s[s.len() - 1]));
    }
}

/// The value of the digit run `v[lo..hi]`, at most four digits long.
fn small_digits(v: &Vec<char>, lo: usize, hi: usize) -> (r: i64)
    requires
        lo <= hi <= v@.len(),
        hi - lo <= 4,
        all_digits(v@.subrange(lo as int, hi as int)),
    ensures
        r == digits_value(v@.subrange(lo as int, hi as int)),
        0 <= r < 10000,
        hi - lo == 2 ==> r < 100,
{
    proof {
        let s = v@.subrange(lo as int, hi as int);
        lemma_digits_below(s);
        reveal_with_fuel(crate::decimal::pow10, 5);
        assert(crate::decimal::pow10(2) == 100);
        if s.len() < 4 {
            assert(crate::decimal::pow10(s.len()) <= 10000);
        }
    }
    match digits_to_i64(v, lo, hi) {
        Some(n) => n,
        None => 0,
    }
}

impl Date {
    /// Parse `YYYY-MM-DD`.
    ///
    /// Strict: exactly ten characters, two hyphens, digits elsewhere. A
    /// trailing time is an error rather than being truncated — §6.5.9 says a
    /// calendar date has none.
    pub fn parse(s: &str) -> (r: Result<Date, ParseDateError>)
        ensures
            !date_shape(s@) ==> (r matches Err(ParseDateError::Malformed { input }) && input@
                == s@),
            date_shape(s@) ==> {
                let (y, m, d) = date_parts(s@);
                &&& r is Ok <==> valid_ymd(y, m, d)
                &&& r matches Ok(dt) ==> dt.spec_year() == y && dt.spec_month() == m
                    && dt.spec_day() == d
                &&& r matches Err(e) ==> e == (ParseDateError::NotACalendarDay {
                    year: y as i32,
                    month: m as u8,
                    day: d as u8,
                })
            },
    {
        let v = chars_of(s);
        if v.len() != 10 || v[4] != '-' || v[7] != '-' || !digits_only(&v, 0, 4) || !digits_only(
            &v,
            5,
            7,
        ) || !digits_only(&v, 8, 10) {
            return Err(ParseDateError::Malformed { input: string_of(&v) });
        }
        let y = small_digits(&v, 0, 4);
        let m = small_digits(&v, 5, 7);
        let d = small_digits(&v, 8, 10);
        Date::new(y as i32, m as u8, d as u8)
    }

    /// `YYYY-MM-DD`.
    pub fn to_string(&self) -> (r: String)
        ensures
            r@ == date_text(self.spec_year(), self.spec_month(), self.spec_day()),
    {
        let mut out: Vec<char> = Vec::new();
        push_zero_padded(&mut out, self.year as i64, 4);
        out.push('-');
        push_zero_padded(&mut out, self.month as i64, 2);
        out.push('-');
        push_zero_padded(&mut out, self.day as i64, 2);
        let r = string_of(&out);
        assert(r@ =~= date_text(self.spec_year(), self.spec_month(), self.spec_day()));
        r
    }
}


impl Date {
    /// Whether `self` is the same day as `other` or earlier — the comparison
    /// BR-29 and BR-30 make.
    pub fn is_on_or_before(self, other: Date) -> (b: bool)
        ensures
            b == self.not_after(other),
    {
        self.year < other.year || (self.year == other.year && self.month < other.month) || (
        self.year == other.year && self.month == other.month && self.day <= other.day)
    }
}

/// **The chronological order is the order of the day numbers.**
pub proof fn lemma_order_is_chronological(a: Date, b: Date)
    requires
        valid_ymd(a.spec_year(), a.spec_month(), a.spec_day()),
        valid_ymd(b.spec_year(), b.spec_month(), b.spec_day()),
    ensures
        a.not_after(b) <==> a.spec_epoch_day() <= b.spec_epoch_day(),
{
    let (y1, m1, d1) = (a.spec_year(), a.spec_month(), a.spec_day());
    let (y2, m2, d2) = (b.spec_year(), b.spec_month(), b.spec_day());
    if (y1, m1, d1) != (y2, m2, d2) {
        if a.not_after(b) {
            lemma_epoch_day_monotone(y1, m1, d1, y2, m2, d2);
        } else {
            lemma_epoch_day_monotone(y2, m2, d2, y1, m1, d1);
        }
    }
}


// ── `chrono` and `time` ───────────────────────────────────────────────────────

#[verifier::external_type_specification]
#[verifier::external_body]
pub struct ExNaiveDate(chrono::NaiveDate);

#[verifier::external_type_specification]
#[verifier::external_body]
pub struct ExTimeDate(CivilDate);

/// `chrono::NaiveDate`'s year range: `MIN_YEAR` to `MAX_YEAR` in its source.
pub open spec fn in_chrono_range(y: int) -> bool {
    -262143 <= y <= 262142
}

/// The year, month and day a `chrono::NaiveDate` holds, as `Datelike`
/// reads them.
pub uninterp spec fn naive_ymd(d: chrono::NaiveDate) -> (i32, u8, u8);

/// The year, month and day a `time::Date` holds.
pub uninterp spec fn time_ymd(d: CivilDate) -> (i32, u8, u8);

/// The year, month and day of a `chrono::NaiveDate`, read with `Datelike`.
///
/// Claimed of it: the parts are the date's own; a `NaiveDate` is a
/// proleptic Gregorian calendar day within `chrono`'s year range, so the
/// three form a valid day.
#[verifier::external_body]
fn chrono_parts(d: &chrono::NaiveDate) -> (r: (i32, u8, u8))
    ensures
        r == naive_ymd(*d),
        valid_ymd(r.0 as int, r.1 as int, r.2 as int),
        in_chrono_range(r.0 as int),
{
    (d.year(), d.month() as u8, d.day() as u8)
}

/// Calls `chrono::NaiveDate::from_ymd_opt`.
///
/// Claimed of it: `None` exactly when the day does not exist or the year is
/// outside `chrono`'s range; when `Some`, the date holds these three parts.
#[verifier::external_body]
fn chrono_from_ymd(year: i32, month: u8, day: u8) -> (r: Option<chrono::NaiveDate>)
    ensures
        r is Some <==> (valid_ymd(year as int, month as int, day as int) && in_chrono_range(year as int)),
        r matches Some(n) ==> naive_ymd(n) == (year, month, day),
{
    chrono::NaiveDate::from_ymd_opt(year, month as u32, day as u32)
}

/// The year, month and day of a `time::Date`.
///
/// Claimed of it: the parts are the date's own; a `time::Date` is a valid
/// proleptic Gregorian calendar day, so the three form one.
#[verifier::external_body]
fn time_parts(d: &CivilDate) -> (r: (i32, u8, u8))
    ensures
        r == time_ymd(*d),
        valid_ymd(r.0 as int, r.1 as int, r.2 as int),
{
    (d.year(), u8::from(d.month()), d.day())
}

impl Date {
    /// The same calendar day as a `chrono::NaiveDate`, which is always a valid
    /// day, so this cannot fail.
    pub fn from_chrono(d: chrono::NaiveDate) -> (r: Date)
        ensures
            r.spec_year() == naive_ymd(d).0 as int,
            r.spec_month() == naive_ymd(d).1 as int,
            r.spec_day() == naive_ymd(d).2 as int,
            valid_ymd(r.spec_year(), r.spec_month(), r.spec_day()),
            in_chrono_range(r.spec_year()),
    {
        let (year, month, day) = chrono_parts(&d);
        Date { year, month, day }
    }

    /// This day as a `chrono::NaiveDate`, or the date back when it lies
    /// outside `chrono`'s year range.
    pub fn to_chrono(self) -> (r: Result<chrono::NaiveDate, Date>)
        ensures
            r is Ok <==> in_chrono_range(self.spec_year()),
            r matches Ok(n) ==> naive_ymd(n).0 as int == self.spec_year() && naive_ymd(n).1 as int
                == self.spec_month() && naive_ymd(n).2 as int == self.spec_day(),
            r matches Err(d) ==> d == self,
    {
        proof {
            use_type_invariant(&self);
        }
        match chrono_from_ymd(self.year, self.month, self.day) {
            Some(n) => Ok(n),
            None => Err(self),
        }
    }

    /// The same calendar day as a `time::Date`.
    pub fn from_time(d: CivilDate) -> (r: Result<Date, ParseDateError>)
        ensures
            r matches Ok(x) && x.spec_year() == time_ymd(d).0 as int && x.spec_month() == time_ymd(d).1 as int
                && x.spec_day() == time_ymd(d).2 as int,
    {
        let (year, month, day) = time_parts(&d);
        Date::new(year, month, day)
    }
}

} // verus!
