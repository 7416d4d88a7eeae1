//! Plain calendar dates.
//!
//! The wire payloads carry dates; this crate models them as a year, month
//! and day triple with the usual Gregorian validity rules, so that the
//! encoding and the checks on them are verified.

use vstd::prelude::*;

verus! {

/// Whether `y` is a Gregorian leap year.
pub open spec fn spec_is_leap_year(y: int) -> bool {
    (y % 4 == 0 && y % 100 != 0) || y % 400 == 0
}

/// The number of days in month `m` of year `y` (for `1 <= m <= 12`).
pub open spec fn spec_days_in_month(y: int, m: int) -> int {
    if m == 2 {
        if spec_is_leap_year(y) {
            29
        } else {
            28
        }
    } else if m == 4 || m == 6 || m == 9 || m == 11 {
        30
    } else {
        31
    }
}

/// A valid date: a four-digit year and a day that exists in its month.
pub open spec fn spec_valid_date(y: int, m: int, d: int) -> bool {
    &&& 0 <= y <= 9999
    &&& 1 <= m <= 12
    &&& 1 <= d <= spec_days_in_month(y, m)
}

/// A calendar date, kept valid by construction.
#[derive(Clone, Copy, Debug, PartialEq, Eq, Structural)]
pub struct Date {
    pub year: u16,
    pub month: u8,
    pub day: u8,
}

impl Date {
    /// Whether the triple held is a valid date.
    pub open spec fn wf(self) -> bool {
        spec_valid_date(self.year as int, self.month as int, self.day as int)
    }

    /// Builds a date from year, month and day; `None` exactly when the
    /// triple is not a valid date.
    pub fn from_ymd(year: u16, month: u8, day: u8) -> (r: Option<Date>)
        ensures
            spec_valid_date(year as int, month as int, day as int) <==> r is Some,
            r is Some ==> r->Some_0 == (Date { year, month, day }) && r->Some_0.wf(),
    {
        if year > 9999 || month < 1 || month > 12 || day < 1 {
            return None;
        }
        let max_day: u8 = if month == 2 {
            let leap = (year % 4 == 0 && year % 100 != 0) || year % 400 == 0;
            if leap {
                29
            } else {
                28
            }
        } else if month == 4 || month == 6 || month == 9 || month == 11 {
            30
        } else {
            31
        };
        if day > max_day {
            None
        } else {
            Some(Date { year, month, day })
        }
    }
}

} // verus!
