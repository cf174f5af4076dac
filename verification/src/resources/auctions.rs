//! Auction endpoints.

use vstd::prelude::*;

use crate::http::{pairs_text, Request};
use crate::resources::{count_if, fixed_request, is_request, join_path, opt_decimal, opt_param, path_request, push_param};
use crate::text::{decimal_text, u32_text};

verus! {

/// The query of a past-auctions page: `page`, then `pageSize` when set.
pub open spec fn past_query(page: u32, page_size: Option<u32>) -> Seq<(Seq<char>, Seq<char>)> {
    seq![("page"@, decimal_text(page as nat))] + opt_param("pageSize"@, opt_decimal(page_size))
}

/// The query of a daily-volume request: `range`.
pub open spec fn range_query(range: Seq<char>) -> Seq<(Seq<char>, Seq<char>)> {
    seq![("range"@, range)]
}

fn range_params(range: &String) -> (params: Vec<(&'static str, String)>)
    ensures
        pairs_text(params@) == range_query(range@),
{
    let mut params: Vec<(&'static str, String)> = Vec::new();
    push_param(&mut params, "range", range.clone());
    assert(pairs_text(params@) =~= range_query(range@));
    params
}

/// Accessor for auction endpoints.
pub struct AuctionsResource {}

impl AuctionsResource {
    /// The accessor.
    pub fn new() -> AuctionsResource {
        AuctionsResource {  }
    }

    /// `GET /auction/{address}` (unwrapped from `{"auction": …}`).
    pub fn get(&self, address: &str) -> (b: AuctionsGetBuilder)
        ensures
            b.address_text() == address@,
    {
        AuctionsGetBuilder { address: String::from_str(address) }
    }

    /// `GET /auctions/active` (unwrapped from `{"auctions": […]}`).
    pub fn active(&self) -> AuctionsActiveBuilder {
        AuctionsActiveBuilder {  }
    }

    /// `GET /auctions/past`: page 1, server page size.
    pub fn past(&self) -> (b: AuctionsPastBuilder)
        ensures
            b.page_number() == 1,
            b.page_size_setting() is None,
    {
        AuctionsPastBuilder { page: 1, page_size: None }
    }

    /// `GET /auctions/piece/{piece_key}`.
    pub fn piece_info(&self, piece_key: &str) -> (b: AuctionPieceInfoBuilder)
        ensures
            b.piece_key_text() == piece_key@,
    {
        AuctionPieceInfoBuilder { piece_key: String::from_str(piece_key) }
    }

    /// `GET /auctions/piece/{piece_key}/daily-volume`, range `30d`.
    pub fn piece_daily_volume(&self, piece_key: &str) -> (b: PieceDailyVolumeBuilder)
        ensures
            b.piece_key_text() == piece_key@,
            b.range_text() == "30d"@,
    {
        PieceDailyVolumeBuilder {
            piece_key: String::from_str(piece_key),
            range: String::from_str("30d"),
        }
    }

    /// `GET /auctions/daily-volume`, range `7d`.
    pub fn daily_volume(&self) -> (b: DailyVolumeBuilder)
        ensures
            b.range_text() == "7d"@,
    {
        DailyVolumeBuilder { range: String::from_str("7d") }
    }

    /// `GET /auctions/today-summary`.
    pub fn today_summary(&self) -> TodaySummaryBuilder {
        TodaySummaryBuilder {  }
    }

    /// `GET /auctions/last-completed-day-summary`.
    pub fn last_completed_day_summary(&self) -> LastCompletedDayBuilder {
        LastCompletedDayBuilder {  }
    }

    /// `GET /prices`.
    pub fn prices(&self) -> PricesBuilder {
        PricesBuilder {  }
    }
}

/// Builder for [`AuctionsResource::get`].
pub struct AuctionsGetBuilder {
    address: String,
}

impl AuctionsGetBuilder {
    /// The auction's address.
    pub closed spec fn address_text(&self) -> Seq<char> {
        self.address@
    }

    /// The request: `GET /auction/{address}`.
    pub fn request(&self) -> (r: Request)
        ensures
            is_request(r, "/auction/"@ + self.address_text(), Seq::empty()),
    {
        path_request(join_path("/auction/", self.address.as_str()))
    }
}

/// Builder for [`AuctionsResource::active`].
pub struct AuctionsActiveBuilder {}

impl AuctionsActiveBuilder {
    /// The request: `GET /auctions/active`.
    pub fn request(&self) -> (r: Request)
        ensures
            is_request(r, "/auctions/active"@, Seq::empty()),
    {
        fixed_request("/auctions/active")
    }
}

/// Builder for [`AuctionsResource::past`].
pub struct AuctionsPastBuilder {
    page: u32,
    page_size: Option<u32>,
}

impl AuctionsPastBuilder {
    /// The 1-indexed page.
    pub closed spec fn page_number(&self) -> u32 {
        self.page
    }

    /// The page size, when set.
    pub closed spec fn page_size_setting(&self) -> Option<u32> {
        self.page_size
    }

    /// Sets the 1-indexed page. Default `1`.
    pub fn page(self, page: u32) -> (b: Self)
        ensures
            b.page_number() == page,
            b.page_size_setting() == self.page_size_setting(),
    {
        AuctionsPastBuilder { page, ..self }
    }

    /// Sets the page size. Left out of the query when not set.
    pub fn page_size(self, n: u32) -> (b: Self)
        ensures
            b.page_number() == self.page_number(),
            b.page_size_setting() == Some(n),
    {
        AuctionsPastBuilder { page_size: Some(n), ..self }
    }

    /// The query parameters: `page`, then `pageSize` when set.
    pub fn params(&self) -> (params: Vec<(&'static str, String)>)
        ensures
            pairs_text(params@) == past_query(self.page_number(), self.page_size_setting()),
    {
        let mut p: Vec<(&'static str, String)> = Vec::new();
        push_param(&mut p, "page", u32_text(self.page));
        if let Some(s) = self.page_size {
            push_param(&mut p, "pageSize", u32_text(s));
        }
        assert(pairs_text(p@) =~= past_query(self.page_number(), self.page_size_setting()));
        p
    }

    /// The request: `GET /auctions/past` with `page` and, when set,
    /// `pageSize`.
    pub fn request(&self) -> (r: Request)
        ensures
            is_request(r, "/auctions/past"@, past_query(self.page_number(), self.page_size_setting())),
    {
        Request { path: String::from_str("/auctions/past"), query: self.params() }
    }
}

/// Builder for [`AuctionsResource::piece_info`].
pub struct AuctionPieceInfoBuilder {
    piece_key: String,
}

impl AuctionPieceInfoBuilder {
    /// The piece key.
    pub closed spec fn piece_key_text(&self) -> Seq<char> {
        self.piece_key@
    }

    /// The request: `GET /auctions/piece/{piece_key}`.
    pub fn request(&self) -> (r: Request)
        ensures
            is_request(r, "/auctions/piece/"@ + self.piece_key_text(), Seq::empty()),
    {
        path_request(join_path("/auctions/piece/", self.piece_key.as_str()))
    }
}

/// Builder for [`AuctionsResource::piece_daily_volume`].
pub struct PieceDailyVolumeBuilder {
    piece_key: String,
    range: String,
}

impl PieceDailyVolumeBuilder {
    /// The piece key.
    pub closed spec fn piece_key_text(&self) -> Seq<char> {
        self.piece_key@
    }

    /// The `range` parameter.
    pub closed spec fn range_text(&self) -> Seq<char> {
        self.range@
    }

    /// Sets the `range` query parameter. Default `"30d"`.
    pub fn range(self, range: &str) -> (b: Self)
        ensures
            b.piece_key_text() == self.piece_key_text(),
            b.range_text() == range@,
    {
        PieceDailyVolumeBuilder { range: String::from_str(range), ..self }
    }

    /// The request: `GET /auctions/piece/{piece_key}/daily-volume` with
    /// `range`; the server wraps the rows in `{"days": …}`.
    pub fn request(&self) -> (r: Request)
        ensures
            is_request(
                r,
                "/auctions/piece/"@ + self.piece_key_text() + "/daily-volume"@,
                range_query(self.range_text()),
            ),
    {
        let path = join_path("/auctions/piece/", self.piece_key.as_str()).concat("/daily-volume");
        Request { path, query: range_params(&self.range) }
    }
}

/// Builder for [`AuctionsResource::daily_volume`].
pub struct DailyVolumeBuilder {
    range: String,
}

impl DailyVolumeBuilder {
    /// The `range` parameter.
    pub closed spec fn range_text(&self) -> Seq<char> {
        self.range@
    }

    /// Sets the `range` query parameter. Default `"7d"`.
    pub fn range(self, range: &str) -> (b: Self)
        ensures
            b.range_text() == range@,
    {
        DailyVolumeBuilder { range: String::from_str(range) }
    }

    /// The request: `GET /auctions/daily-volume` with `range`; the server
    /// wraps the rows in `{"days": …}`.
    pub fn request(&self) -> (r: Request)
        ensures
            is_request(r, "/auctions/daily-volume"@, range_query(self.range_text())),
    {
        Request { path: String::from_str("/auctions/daily-volume"), query: range_params(&self.range) }
    }
}

/// Builder for [`AuctionsResource::today_summary`].
pub struct TodaySummaryBuilder {}

impl TodaySummaryBuilder {
    /// The request: `GET /auctions/today-summary`.
    pub fn request(&self) -> (r: Request)
        ensures
            is_request(r, "/auctions/today-summary"@, Seq::empty()),
    {
        fixed_request("/auctions/today-summary")
    }
}

/// Builder for [`AuctionsResource::last_completed_day_summary`].
pub struct LastCompletedDayBuilder {}

impl LastCompletedDayBuilder {
    /// The request: `GET /auctions/last-completed-day-summary`.
    pub fn request(&self) -> (r: Request)
        ensures
            is_request(r, "/auctions/last-completed-day-summary"@, Seq::empty()),
    {
        fixed_request("/auctions/last-completed-day-summary")
    }
}

/// Builder for [`AuctionsResource::prices`].
pub struct PricesBuilder {}

impl PricesBuilder {
    /// The request: `GET /prices`.
    pub fn request(&self) -> (r: Request)
        ensures
            is_request(r, "/prices"@, Seq::empty()),
    {
        fixed_request("/prices")
    }
}

/// The query of a past-auctions page, on every page number: `page`
/// first, then `pageSize` exactly when a page size is set.
pub proof fn law_past_query(page: u32, page_size: Option<u32>)
    ensures
        past_query(page, page_size).len() == 1 + count_if(page_size is Some),
        past_query(page, page_size)[0] == ("page"@, decimal_text(page as nat)),
        page_size matches Some(n) ==> past_query(page, page_size)[1] == ("pageSize"@, decimal_text(
            n as nat,
        )),
{
}

/// The query of a daily-volume request is `range` alone, with the text
/// given.
pub proof fn law_range_query(range: Seq<char>)
    ensures
        range_query(range).len() == 1,
        range_query(range)[0] == ("range"@, range),
{
}

} // verus!
