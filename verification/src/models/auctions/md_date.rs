//! The `"MM/DD"` texts the server sends as `PastAuction.end_date`. The
//! year is the current calendar year.

use vstd::prelude::*;

use crate::clock::current_year;
use crate::models::auctions::is_day_of_every_year;
use crate::models::common::{is_calendar_date, CalendarDate, DateTextError};
use crate::text::{
    decimal_text, is_ascii_digit, law_decimal_text, law_decimal_text_reads_back, parse_u32, parsed_u32,
};

verus! {

/// The index of the first `c` in `s`, if any.
pub open spec fn first_index_of(s: Seq<char>, c: char) -> Option<int>
    decreases s.len(),
{
    if s.len() == 0 {
        None
    } else if s[0] == c {
        Some(0)
    } else {
        match first_index_of(s.drop_first(), c) {
            Some(i) => Some(i + 1),
            None => None,
        }
    }
}

/// Month and day of a `"MM/DD"` text, split at the first `/` as
/// `splitn(2, '/')` does: the month part must read as a `u32`
/// (else `InvalidMonth`), and a day part must follow and read as a `u32`
/// (else `InvalidDay`).
pub open spec fn month_day_outcome(s: Seq<char>) -> Result<(u32, u32), DateTextError> {
    match first_index_of(s, '/') {
        None => if parsed_u32(s) is Some {
            Err(DateTextError::InvalidDay)
        } else {
            Err(DateTextError::InvalidMonth)
        },
        Some(i) => match parsed_u32(s.take(i)) {
            None => Err(DateTextError::InvalidMonth),
            Some(m) => match parsed_u32(s.skip(i + 1)) {
                None => Err(DateTextError::InvalidDay),
                Some(d) => Ok((m, d)),
            },
        },
    }
}

proof fn lemma_first_index(s: Seq<char>, c: char, i: int)
    requires
        0 <= i <= s.len(),
        forall|j: int| 0 <= j < i ==> s[j] != c,
    ensures
        i < s.len() && s[i] == c ==> first_index_of(s, c) == Some(i),
        i == s.len() ==> first_index_of(s, c) is None,
    decreases i,
{
    if i > 0 {
        lemma_first_index(s.drop_first(), c, i - 1);
    }
}

/// What is written as `"{month}/{day}"` reads back as that month and day.
pub proof fn law_month_day_reads_back(month: u32, day: u32)
    ensures
        month_day_outcome(decimal_text(month as nat) + seq!['/'] + decimal_text(day as nat)) == Ok::<
            (u32, u32),
            DateTextError,
        >((month, day)),
{
    let m = decimal_text(month as nat);
    let d = decimal_text(day as nat);
    let s = m + seq!['/'] + d;
    law_decimal_text(month as nat);
    law_decimal_text(day as nat);
    law_decimal_text_reads_back(month);
    law_decimal_text_reads_back(day);
    assert forall|j: int| 0 <= j < m.len() implies s[j] != '/' by {
        assert(s[j] == m[j]);
        assert(is_ascii_digit(m[j]));
    }
    assert(s[m.len() as int] == '/');
    lemma_first_index(s, '/', m.len() as int);
    assert(s.take(m.len() as int) =~= m);
    assert(s.skip(m.len() as int + 1) =~= d);
}

/// Month and day of a `"MM/DD"` text.
pub fn parse_month_day(s: &str) -> (r: Result<(u32, u32), DateTextError>)
    ensures
        r == month_day_outcome(s@),
{
    let len = s.unicode_len();
    let mut i: usize = 0;
    while i < len
        invariant
            i <= len,
            len == s@.len(),
            forall|j: int| 0 <= j < i ==> s@[j] != '/',
        ensures
            i <= len,
            forall|j: int| 0 <= j < i ==> s@[j] != '/',
            i < len ==> s@[i as int] == '/',
        decreases len - i,
    {
        if s.get_char(i) == '/' {
            break;
        }
        i = i + 1;
    }
    proof {
        lemma_first_index(s@, '/', i as int);
    }
    if i == len {
        return match parse_u32(s) {
            Some(_) => Err(DateTextError::InvalidDay),
            None => Err(DateTextError::InvalidMonth),
        };
    }
    let month_text = s.substring_char(0, i);
    assert(month_text@ =~= s@.take(i as int));
    let month = match parse_u32(month_text) {
        Some(m) => m,
        None => return Err(DateTextError::InvalidMonth),
    };
    let day_text = s.substring_char(i + 1, len);
    assert(day_text@ =~= s@.skip(i + 1));
    match parse_u32(day_text) {
        Some(d) => Ok((month, d)),
        None => Err(DateTextError::InvalidDay),
    }
}

/// The date of a `"MM/DD"` text in year `year`.
pub open spec fn month_day_date_ok(r: Result<CalendarDate, DateTextError>, year: i32, s: Seq<char>) -> bool {
    match month_day_outcome(s) {
        Err(e) => r == Err::<CalendarDate, DateTextError>(e),
        Ok((m, d)) => if is_calendar_date(year as int, m as int, d as int) {
            r matches Ok(date) && date.year_of() == year && date.month_of() == m && date.day_of()
                == d
        } else {
            r == Err::<CalendarDate, DateTextError>(DateTextError::InvalidDate)
        },
    }
}

/// The date of a `"MM/DD"` text in year `year`.
pub fn month_day_in_year(year: i32, s: &str) -> (r: Result<CalendarDate, DateTextError>)
    ensures
        month_day_date_ok(r, year, s@),
{
    match parse_month_day(s) {
        Err(e) => Err(e),
        Ok((m, d)) => match CalendarDate::from_ymd_opt(year, m, d) {
            Some(date) => Ok(date),
            None => Err(DateTextError::InvalidDate),
        },
    }
}

/// The date of an optional `"MM/DD"` text, in the current calendar year
/// (UTC): no text is no date; a text that does not split into month and
/// day numbers is rejected whatever the year; otherwise the date has that
/// month and day, or is rejected as `InvalidDate` when the day does not
/// exist in the current year, or as `NoCurrentYear` when the system clock
/// gives no year. A day that every year has (all but February 29) gives a
/// date whenever the clock gives a year.
pub fn deserialize_opt(text: Option<&str>) -> (r: Result<Option<CalendarDate>, DateTextError>)
    ensures
        text is None ==> r matches Ok(None),
        text matches Some(s) ==> match month_day_outcome(s@) {
            Err(e) => r == Err::<Option<CalendarDate>, DateTextError>(e),
            Ok((m, d)) => {
                &&& r matches Ok(Some(date)) ==> date.month_of() == m && date.day_of() == d
                &&& r matches Err(e) ==> (e == DateTextError::InvalidDate || e
                    == DateTextError::NoCurrentYear)
                &&& !(r matches Ok(None))
                &&& (forall|y: int| !#[trigger] is_calendar_date(y, m as int, d as int)) ==> r is Err
                &&& is_day_of_every_year(m as int, d as int) ==> (r matches Ok(Some(_)) || r
                    == Err::<Option<CalendarDate>, DateTextError>(DateTextError::NoCurrentYear))
            },
        },
{
    match text {
        None => Ok(None),
        Some(s) => match parse_month_day(s) {
            Err(e) => Err(e),
            Ok(_) => match current_year() {
                None => Err(DateTextError::NoCurrentYear),
                Some(year) => match month_day_in_year(year, s) {
                    Ok(d) => Ok(Some(d)),
                    Err(e) => Err(e),
                },
            },
        },
    }
}

} // verus!
