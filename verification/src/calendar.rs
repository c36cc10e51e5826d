//! Unix seconds to calendar date and time of day (UTC, proleptic Gregorian).

use vstd::prelude::*;

verus! {

pub open spec fn is_leap_year(y: int) -> bool {
    y % 4 == 0 && (y % 100 != 0 || y % 400 == 0)
}

pub open spec fn year_length(y: int) -> int {
    if is_leap_year(y) { 366 } else { 365 }
}

pub open spec fn month_length(y: int, m: int) -> int {
    if m == 2 {
        if is_leap_year(y) { 29 } else { 28 }
    } else if m == 4 || m == 6 || m == 9 || m == 11 {
        30
    } else {
        31
    }
}

/// Days from 1970-01-01 to January 1st of year `y` (negative before 1970).
pub open spec fn days_before_year(y: int) -> int
    decreases (if y >= 1970 { y - 1970 } else { 1970 - y }),
{
    if y == 1970 {
        0
    } else if y > 1970 {
        days_before_year(y - 1) + year_length(y - 1)
    } else {
        days_before_year(y + 1) - year_length(y)
    }
}

/// Days from January 1st to the first of month `m` in year `y`.
pub open spec fn days_before_month(y: int, m: int) -> int
    decreases m,
{
    if m <= 1 {
        0
    } else {
        days_before_month(y, m - 1) + month_length(y, m - 1)
    }
}

/// Days from 1970-01-01 to the given date.
pub open spec fn days_from_civil(y: int, m: int, d: int) -> int {
    days_before_year(y) + days_before_month(y, m) + d - 1
}

/// A calendar date and time of day.
#[derive(Debug, Clone, Copy, PartialEq, Eq, Structural)]
pub struct CivilTime {
    pub year: u16,
    pub month: u8,
    pub day: u8,
    pub hour: u8,
    pub minute: u8,
    pub second: u8,
}

impl CivilTime {
    /// A real date and a time of day without leap seconds.
    pub open spec fn is_valid(self) -> bool {
        &&& 1 <= self.month <= 12
        &&& 1 <= self.day <= month_length(self.year as int, self.month as int)
        &&& self.hour <= 23
        &&& self.minute <= 59
        &&& self.second <= 59
    }

    /// Seconds since the Unix epoch of this moment.
    pub open spec fn unix_seconds(self) -> int {
        days_from_civil(self.year as int, self.month as int, self.day as int) * 86400
            + self.hour * 3600 + self.minute * 60 + self.second
    }
}

proof fn lemma_days_before_year_step(y: int)
    ensures
        days_before_year(y + 1) == days_before_year(y) + year_length(y),
    decreases (if y >= 1970 { y - 1970 } else { 1970 - y }),
{
    if y >= 1970 {
    } else {
        assert(days_before_year(y) == days_before_year(y + 1) - year_length(y));
    }
}

/// A year from 1970 on starts at most 366 days per year after 1970.
proof fn lemma_days_before_year_at_most(y: int)
    requires
        y >= 1970,
    ensures
        0 <= days_before_year(y) <= 366 * (y - 1970),
    decreases y - 1970,
{
    if y > 1970 {
        lemma_days_before_year_at_most(y - 1);
    }
}

/// A moment in the years 1980 to 2107 lies between 1970 and 2^33 seconds
/// after the Unix epoch.
pub proof fn lemma_years_1980_to_2107_bounded(secs: int)
    ensures
        in_years_1980_to_2107(secs) ==> 0 <= secs < 0x2_0000_0000,
{
    lemma_days_before_year_monotonic(1970, 1980);
    lemma_days_before_year_at_most(2108);
    let lo = days_before_year(1980);
    let hi = days_before_year(2108);
    assert(0 <= lo * 86400 && hi * 86400 < 0x2_0000_0000) by (nonlinear_arith)
        requires
            0 <= lo,
            hi <= 366 * 138,
    ;
}

/// Later years start later.
proof fn lemma_days_before_year_monotonic(a: int, b: int)
    requires
        a <= b,
    ensures
        days_before_year(a) <= days_before_year(b),
    decreases b - a,
{
    if a < b {
        lemma_days_before_year_step(b - 1);
        lemma_days_before_year_monotonic(a, b - 1);
    }
}

proof fn lemma_days_before_month_bounded(y: int, m: int)
    requires
        1 <= m <= 13,
    ensures
        0 <= days_before_month(y, m) <= days_before_month(y, 13),
        days_before_month(y, 13) == year_length(y),
    decreases 13 - m,
{
    reveal_with_fuel(days_before_month, 13);
    if m < 13 {
        lemma_days_before_month_bounded(y, m + 1);
    }
}

/// The calendar date and time of `secs` seconds after the Unix epoch (UTC),
/// when it falls in the years 1980 to 2107; `None` when it falls before or after.
pub fn civil_time_1980_to_2107(secs: i64) -> (r: Option<CivilTime>)
    ensures
        match r {
            Some(c) => c.is_valid() && 1980 <= c.year <= 2107 && c.unix_seconds() == secs
                && in_years_1980_to_2107(secs as int),
            None => !in_years_1980_to_2107(secs as int),
        },
{
    if secs < 0 {
        proof {
            lemma_days_before_year_monotonic(1970, 1980);
        }
        return None;
    }
    let days: u64 = (secs as u64) / 86400;
    let second_of_day: u64 = (secs as u64) % 86400;
    let mut year: u64 = 1970;
    let mut rest: u64 = days;
    loop
        invariant_except_break
            1970 <= year <= 2107,
            rest as int == days as int - days_before_year(year as int),
        ensures
            1970 <= year <= 2108,
            rest as int == days as int - days_before_year(year as int),
            year <= 2107 ==> rest < year_length(year as int),
        decreases 2108 - year,
    {
        let length: u64 = if year % 4 == 0 && (year % 100 != 0 || year % 400 == 0) { 366 } else { 365 };
        if rest < length {
            break;
        }
        proof {
            lemma_days_before_year_step(year as int);
        }
        rest = rest - length;
        year = year + 1;
        if year > 2107 {
            break;
        }
    }
    if year < 1980 || year > 2107 {
        proof {
            if year < 1980 {
                lemma_days_before_year_step(year as int);
                lemma_days_before_year_monotonic(year as int + 1, 1980);
            } else {
                assert(days as int >= days_before_year(2108));
            }
        }
        return None;
    }
    proof {
        lemma_days_before_month_bounded(year as int, 1);
    }
    let leap = year % 4 == 0 && (year % 100 != 0 || year % 400 == 0);
    let mut month: u64 = 1;
    loop
        invariant_except_break
            1 <= month <= 12,
            leap == is_leap_year(year as int),
            rest as int + days_before_month(year as int, month as int)
                == days as int - days_before_year(year as int),
            days as int - days_before_year(year as int) < year_length(year as int),
            0 <= days_before_month(year as int, month as int),
        ensures
            1 <= month <= 12,
            rest < month_length(year as int, month as int),
            rest as int + days_before_month(year as int, month as int)
                == days as int - days_before_year(year as int),
        decreases 12 - month,
    {
        let length: u64 = if month == 2 {
            if leap { 29 } else { 28 }
        } else if month == 4 || month == 6 || month == 9 || month == 11 {
            30
        } else {
            31
        };
        if rest < length || month == 12 {
            proof {
                if month == 12 {
                    reveal_with_fuel(days_before_month, 13);
                    lemma_days_before_month_bounded(year as int, 13);
                }
            }
            break;
        }
        rest = rest - length;
        month = month + 1;
    }
    let c = CivilTime {
        year: year as u16,
        month: month as u8,
        day: (rest + 1) as u8,
        hour: (second_of_day / 3600) as u8,
        minute: ((second_of_day % 3600) / 60) as u8,
        second: (second_of_day % 60) as u8,
    };
    assert(c.unix_seconds() == secs) by {
        assert(days * 86400 + second_of_day == secs);
    }
    proof {
        lemma_days_before_year_step(year as int);
        lemma_days_before_year_monotonic(1980, year as int);
        lemma_days_before_year_monotonic(year as int + 1, 2108);
    }
    Some(c)
}

} // verus!

verus! {

/// `c` is the calendar date and time of the moment `secs` seconds after the Unix epoch.
pub open spec fn is_civil_time_of(c: CivilTime, secs: int) -> bool {
    c.is_valid() && c.unix_seconds() == secs
}

/// The moment falls in the years 1980 to 2107 (UTC).
pub open spec fn in_years_1980_to_2107(secs: int) -> bool {
    days_before_year(1980) * 86400 <= secs < days_before_year(2108) * 86400
}

} // verus!

verus! {

/// Later months of a year start later.
proof fn lemma_days_before_month_monotonic(y: int, a: int, b: int)
    requires
        1 <= a <= b <= 13,
    ensures
        days_before_month(y, a) <= days_before_month(y, b),
    decreases b - a,
{
    if a < b {
        lemma_days_before_month_monotonic(y, a, b - 1);
    }
}

/// A valid date lies within its year.
proof fn lemma_day_within_year(y: int, m: int, d: int)
    requires
        1 <= m <= 12,
        1 <= d <= month_length(y, m),
    ensures
        0 <= days_before_month(y, m) + d - 1 < year_length(y),
{
    lemma_days_before_month_bounded(y, m + 1);
    lemma_days_before_month_bounded(y, m);
}

/// Two calendar dates and times denote the same moment only when they are
/// the same: the conversion from calendar to Unix seconds is one-to-one, so
/// the calendar time of a moment is unique.
pub proof fn civil_times_are_distinct_moments(a: CivilTime, b: CivilTime)
    requires
        a.is_valid(),
        b.is_valid(),
        a.unix_seconds() == b.unix_seconds(),
    ensures
        a == b,
{
    let (ya, ma, da) = (a.year as int, a.month as int, a.day as int);
    let (yb, mb, db) = (b.year as int, b.month as int, b.day as int);
    lemma_day_within_year(ya, ma, da);
    lemma_day_within_year(yb, mb, db);
    let days_a = days_from_civil(ya, ma, da);
    let days_b = days_from_civil(yb, mb, db);
    assert(days_a == days_b);
    if ya < yb {
        lemma_days_before_year_step(ya);
        lemma_days_before_year_monotonic(ya + 1, yb);
    } else if yb < ya {
        lemma_days_before_year_step(yb);
        lemma_days_before_year_monotonic(yb + 1, ya);
    }
    assert(ya == yb);
    if ma < mb {
        lemma_days_before_month_monotonic(ya, ma + 1, mb);
    } else if mb < ma {
        lemma_days_before_month_monotonic(ya, mb + 1, ma);
    }
    assert(ma == mb);
    assert(da == db);
}

} // verus!
