//! The server's nested `{year, month, day}` date shape, used on a handful
//! of summary endpoints (`DailyVolume.date`, `PastDayBucket.date`, …).

use vstd::prelude::*;

use crate::models::common::{is_calendar_date, CalendarDate, DateTextError};

verus! {

/// The date of a decoded `{year, month, day}` object; `"invalid date"`
/// when the numbers do not form a Gregorian calendar day.
pub fn deserialize(year: i32, month: u32, day: u32) -> (r: Result<CalendarDate, DateTextError>)
    ensures
        is_calendar_date(year as int, month as int, day as int) <==> r is Ok,
        r matches Ok(d) ==> d.year_of() == year && d.month_of() == month && d.day_of() == day,
        r matches Err(e) ==> e == DateTextError::InvalidDate,
{
    match CalendarDate::from_ymd_opt(year, month, day) {
        Some(d) => Ok(d),
        None => Err(DateTextError::InvalidDate),
    }
}

} // verus!
