//! Shared models used across several response bodies, and calendar dates.

use vstd::prelude::*;

pub mod date_dict;

verus! {

/// A piece "helmet": a small visual badge attached to a player.
#[derive(Debug, Clone, PartialEq, Eq)]
pub struct Helmet {
    pub key: String,
    pub color: String,
}

/// Compact player identity on match-history rows and similar two-player
/// contexts.
#[derive(Debug, Clone, PartialEq, Eq)]
pub struct PlayerInfo {
    pub address: String,
    /// Absent for "ghost" wallets: addresses that played games but never
    /// registered a username.
    pub username: Option<String>,
    /// Absent for ghost wallets.
    pub username_display: Option<String>,
    /// Absent for users who have not equipped one.
    pub helmet: Option<Helmet>,
}

/// A hint that the caller should be prompted to sign up or log in.
#[derive(Debug, Clone, PartialEq, Eq)]
pub struct SuggestSignup {
    pub reason: String,
}

/// The optional `_meta` envelope of a response.
#[derive(Debug, Clone, PartialEq, Eq, Default)]
pub struct ResponseMeta {
    pub suggest_signup: Option<SuggestSignup>,
}

/// Whether `y` is a leap year of the proleptic Gregorian calendar.
pub open spec fn is_leap_year(y: int) -> bool {
    y % 4 == 0 && (y % 100 != 0 || y % 400 == 0)
}

/// The number of days of month `m` (1 to 12) in year `y`.
pub open spec fn days_in_month(y: int, m: int) -> int {
    if m == 2 {
        if is_leap_year(y) { 29 } else { 28 }
    } else if m == 4 || m == 6 || m == 9 || m == 11 {
        30
    } else {
        31
    }
}

/// Whether `(y, m, d)` is a day of the proleptic Gregorian calendar in the
/// years that chrono's `NaiveDate` represents (`-262143` to `262142`).
pub open spec fn is_calendar_date(y: int, m: int, d: int) -> bool {
    &&& -262143 <= y <= 262142
    &&& 1 <= m <= 12
    &&& 1 <= d <= days_in_month(y, m)
}

/// The shape of the calendar, within chrono's years: days 1 to 28 exist
/// in every month; day 29 of February exactly in leap years (every fourth
/// year, but not centuries other than every fourth); day 30 in every month
/// but February; day 31 exactly in January, March, May, July, August,
/// October and December; no month outside 1 to 12 and no day 0 or past 31.
pub proof fn law_calendar_days(y: int, m: int, d: int)
    requires
        -262143 <= y <= 262142,
    ensures
        (1 <= m <= 12 && 1 <= d <= 28) ==> is_calendar_date(y, m, d),
        is_calendar_date(y, 2, 29) == (y % 4 == 0 && (y % 100 != 0 || y % 400 == 0)),
        (1 <= m <= 12 && m != 2) ==> is_calendar_date(y, m, 30),
        is_calendar_date(y, m, 31) == (m == 1 || m == 3 || m == 5 || m == 7 || m == 8 || m == 10
            || m == 12),
        !(1 <= m <= 12) ==> !is_calendar_date(y, m, d),
        (d < 1 || d > 31) ==> !is_calendar_date(y, m, d),
{
}

/// Calls `chrono::NaiveDate::from_ymd_opt`. Claims, as its documentation
/// and source show, that it gives a date exactly when `(year, month, day)`
/// is a day of the proleptic Gregorian calendar within chrono's year range
/// `(i32::MIN >> 13) + 1 ..= (i32::MAX >> 13) - 1`.
#[verifier::external_body]
fn chrono_date_exists(year: i32, month: u32, day: u32) -> (b: bool)
    ensures
        b == is_calendar_date(year as int, month as int, day as int),
{
    match chrono::NaiveDate::from_ymd_opt(year, month, day) {
        Some(_) => true,
        None => false,
    }
}

/// A calendar date (what chrono's `NaiveDate` holds): always a valid day.
#[derive(Debug, Clone, Copy, PartialEq, Eq, Structural)]
pub struct CalendarDate {
    year: i32,
    month: u32,
    day: u32,
}

impl CalendarDate {
    #[verifier::type_invariant]
    spec fn valid(self) -> bool {
        is_calendar_date(self.year as int, self.month as int, self.day as int)
    }

    /// The year.
    pub closed spec fn year_of(self) -> i32 {
        self.year
    }

    /// The month (1 to 12).
    pub closed spec fn month_of(self) -> u32 {
        self.month
    }

    /// The day of the month.
    pub closed spec fn day_of(self) -> u32 {
        self.day
    }

    /// The date `(year, month, day)`, or `None` when no such day exists
    /// (as `NaiveDate::from_ymd_opt`).
    pub fn from_ymd_opt(year: i32, month: u32, day: u32) -> (r: Option<CalendarDate>)
        ensures
            is_calendar_date(year as int, month as int, day as int) <==> r is Some,
            r matches Some(d) ==> d.year_of() == year && d.month_of() == month && d.day_of() == day,
    {
        if chrono_date_exists(year, month, day) {
            Some(CalendarDate { year, month, day })
        } else {
            None
        }
    }

    /// The year.
    pub fn year(&self) -> (y: i32)
        ensures
            y == self.year_of(),
            is_calendar_date(self.year_of() as int, self.month_of() as int, self.day_of() as int),
    {
        proof {
            use_type_invariant(self);
        }
        self.year
    }

    /// The month (1 to 12).
    pub fn month(&self) -> (m: u32)
        ensures
            m == self.month_of(),
            is_calendar_date(self.year_of() as int, self.month_of() as int, self.day_of() as int),
    {
        proof {
            use_type_invariant(self);
        }
        self.month
    }

    /// The day of the month.
    pub fn day(&self) -> (d: u32)
        ensures
            d == self.day_of(),
            is_calendar_date(self.year_of() as int, self.month_of() as int, self.day_of() as int),
    {
        proof {
            use_type_invariant(self);
        }
        self.day
    }
}

/// Why a date in a response body was rejected.
#[derive(Debug, Clone, Copy, PartialEq, Eq, Structural)]
pub enum DateTextError {
    /// The month part of a `"MM/DD"` text is not a number.
    InvalidMonth,
    /// The day part of a `"MM/DD"` text is missing or not a number.
    InvalidDay,
    /// The numbers do not form a calendar date.
    InvalidDate,
    /// The system clock gives no current year to date a `"MM/DD"` text in.
    NoCurrentYear,
}

impl DateTextError {
    /// The message the decoder reports: `"invalid month"`, `"invalid day"`,
    /// `"invalid date"` or `"system clock out of range"`.
    pub fn message(&self) -> (s: &'static str)
        ensures
            s@ == match self {
                DateTextError::InvalidMonth => "invalid month"@,
                DateTextError::InvalidDay => "invalid day"@,
                DateTextError::InvalidDate => "invalid date"@,
                DateTextError::NoCurrentYear => "system clock out of range"@,
            },
    {
        match self {
            DateTextError::InvalidMonth => "invalid month",
            DateTextError::InvalidDay => "invalid day",
            DateTextError::InvalidDate => "invalid date",
            DateTextError::NoCurrentYear => "system clock out of range",
        }
    }
}

} // verus!
