//! Auction models that hold no floating-point or date-time field, and the
//! current-year dates of the `"MM/DD"` texts on past auctions.

use vstd::prelude::*;

use crate::clock::current_year;
use crate::models::common::{is_calendar_date, CalendarDate};

pub mod md_date;

verus! {

/// Piece key and sub-key of an auction.
#[derive(Debug, Clone, PartialEq, Eq)]
pub struct AuctionMetadata {
    pub piece_key: String,
    pub sub_key: String,
}

/// One row of the VRGDA price block of `/prices`.
#[derive(Debug, Clone, PartialEq, Eq)]
pub struct VrgdaPrice {
    pub address: String,
    pub price: String,
    pub total_sold: u32,
    pub max_mints: u32,
    pub price_trend: Option<String>,
}

/// The optional instant-mint price block of `/prices`.
#[derive(Debug, Clone, PartialEq, Eq)]
pub struct InstantMintPrice {
    pub address: String,
    pub price: String,
    pub total_sold: u32,
    pub max_mints: u32,
    pub price_trend: Option<String>,
}

/// `GET /prices`: the current pricing snapshot.
#[derive(Debug, Clone, PartialEq, Eq)]
pub struct Prices {
    pub vrgda: Vec<VrgdaPrice>,
    pub instant_mint: Option<InstantMintPrice>,
    pub poll_interval_ms: u32,
}

/// Whether month `m`, day `d` is a day of every year: a day of a leap
/// year other than February 29.
pub open spec fn is_day_of_every_year(m: int, d: int) -> bool {
    is_calendar_date(2000, m, d) && !(m == 2 && d == 29)
}

/// The date `month`/`day` in the current calendar year (UTC), or `None`
/// when that day does not exist this year or the system clock gives no
/// year (see [`current_year`]).
pub fn current_year_md(month: u32, day: u32) -> (r: Option<CalendarDate>)
    ensures
        r matches Some(d) ==> d.month_of() == month && d.day_of() == day,
        (forall|y: int| !#[trigger] is_calendar_date(y, month as int, day as int)) ==> r is None,
{
    match current_year() {
        Some(year) => CalendarDate::from_ymd_opt(year, month, day),
        None => None,
    }
}

} // verus!
