//! The current calendar year by the system clock, computed the way
//! chrono's `Utc::now` does it, but without its panics: a clock reading
//! that chrono cannot turn into a date gives no year.

use vstd::prelude::*;

verus! {

/// Calls `std::time::SystemTime::now`. What it reads depends on the
/// clock; nothing is claimed of it.
#[verifier::external_body]
fn system_now() -> std::time::SystemTime {
    std::time::SystemTime::now()
}

/// Calls `SystemTime::duration_since(UNIX_EPOCH)` on `t`: `Ok` with the
/// whole seconds and the nanoseconds since the epoch when `t` is not
/// before it, `Err` with those of the distance back to `t` when it is.
/// Claims only what `Duration::subsec_nanos` documents: the nanoseconds
/// are below one second.
#[verifier::external_body]
fn since_epoch(t: &std::time::SystemTime) -> (r: Result<(u64, u32), (u64, u32)>)
    ensures
        match r {
            Ok((_, n)) => n < 1_000_000_000,
            Err((_, n)) => n < 1_000_000_000,
        },
{
    match t.duration_since(std::time::UNIX_EPOCH) {
        Ok(d) => Ok((d.as_secs(), d.subsec_nanos())),
        Err(e) => Err((e.duration().as_secs(), e.duration().subsec_nanos())),
    }
}

/// The Unix timestamp (seconds, then nanoseconds within the second) of a
/// clock reading given as its distance from the epoch (`Ok` after it,
/// `Err` before it), as chrono's `From<SystemTime>` computes it; `None`
/// when the whole seconds do not fit in an `i64`.
pub open spec fn timestamp_of(since: Result<(u64, u32), (u64, u32)>) -> Option<(i64, u32)> {
    match since {
        Ok((s, n)) => if s <= i64::MAX {
            Some((s as i64, n))
        } else {
            None
        },
        Err((s, n)) => if s > i64::MAX {
            None
        } else if n == 0 {
            Some(((-(s as int)) as i64, 0u32))
        } else {
            Some(((-(s as int) - 1) as i64, (1_000_000_000 - n) as u32))
        },
    }
}

/// The Unix timestamp of a clock reading; see [`timestamp_of`].
pub fn unix_timestamp(since: Result<(u64, u32), (u64, u32)>) -> (r: Option<(i64, u32)>)
    requires
        match since {
            Ok((_, n)) => n < 1_000_000_000,
            Err((_, n)) => n < 1_000_000_000,
        },
    ensures
        r == timestamp_of(since),
{
    match since {
        Ok((s, n)) => if s <= 9223372036854775807 {
            Some((s as i64, n))
        } else {
            None
        },
        Err((s, n)) => if s > 9223372036854775807 {
            None
        } else if n == 0 {
            Some((-(s as i64), 0))
        } else {
            Some((-(s as i64) - 1, 1_000_000_000 - n))
        },
    }
}

/// The year of the UTC date-time at Unix timestamp `(secs, nanos)`, or
/// `None` when chrono has no date-time there.
pub uninterp spec fn timestamp_year(secs: i64, nanos: u32) -> Option<i32>;

/// Calls `chrono::DateTime::<Utc>::from_timestamp(secs, nanos)` and takes
/// the year (`Datelike::year`) of the date-time it gives. Claims that the
/// outcome depends on `(secs, nanos)` alone, and that a year it gives is
/// one that chrono's dates represent (`-262143 ..= 262142`).
#[verifier::external_body]
fn year_at(secs: i64, nanos: u32) -> (r: Option<i32>)
    ensures
        r == timestamp_year(secs, nanos),
        r matches Some(y) ==> -262143 <= y <= 262142,
{
    match chrono::DateTime::<chrono::Utc>::from_timestamp(secs, nanos) {
        Some(t) => Some(chrono::Datelike::year(&t)),
        None => None,
    }
}

/// The current calendar year (UTC) by the system clock, or `None` when
/// the clock reads a time that chrono's dates do not reach. Which year it
/// is depends on the clock; what holds of every outcome is that a year is
/// one that chrono's dates represent.
pub fn current_year() -> (r: Option<i32>)
    ensures
        r matches Some(y) ==> -262143 <= y <= 262142,
{
    let now = system_now();
    match unix_timestamp(since_epoch(&now)) {
        Some((secs, nanos)) => year_at(secs, nanos),
        None => None,
    }
}

} // verus!
