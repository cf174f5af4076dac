//! Leaderboard endpoints: `GET /leaderboard` (rating-based) and
//! `GET /points-leaderboard` (points-based). Each has a single-page
//! builder and an auto-paginating one.

use vstd::prelude::*;

use crate::http::{pairs_text, Request};
use crate::error::ClientError;
use crate::pagination::{
    ends_walk, law_walk_runs_to_first_end, walk_start, walk_trace, yields_through, PageData, PageWalk,
};
use crate::resources::{count_if, is_request, opt_decimal, opt_param, push_param};
use crate::text::{decimal_text, u32_text};

verus! {

/// The query of a rating-leaderboard page: `page`, then `pageSize` when set.
pub open spec fn lb_query(page: u32, page_size: Option<u32>) -> Seq<(Seq<char>, Seq<char>)> {
    seq![("page"@, decimal_text(page as nat))] + opt_param("pageSize"@, opt_decimal(page_size))
}

/// The query parameters of a rating-leaderboard page.
pub fn lb_params(page: u32, page_size: Option<u32>) -> (params: Vec<(&'static str, String)>)
    ensures
        pairs_text(params@) == lb_query(page, page_size),
{
    let mut params: Vec<(&'static str, String)> = Vec::new();
    push_param(&mut params, "page", u32_text(page));
    if let Some(ps) = page_size {
        push_param(&mut params, "pageSize", u32_text(ps));
    }
    assert(pairs_text(params@) =~= lb_query(page, page_size));
    params
}

/// The query of a points-leaderboard page.
pub open spec fn points_query(page: u32) -> Seq<(Seq<char>, Seq<char>)> {
    seq![("page"@, decimal_text(page as nat))]
}

fn points_params(page: u32) -> (params: Vec<(&'static str, String)>)
    ensures
        pairs_text(params@) == points_query(page),
{
    let mut params: Vec<(&'static str, String)> = Vec::new();
    push_param(&mut params, "page", u32_text(page));
    assert(pairs_text(params@) =~= points_query(page));
    params
}

/// Accessor for leaderboard endpoints.
pub struct LeaderboardResource {}

impl LeaderboardResource {
    /// The accessor.
    pub fn new() -> LeaderboardResource {
        LeaderboardResource {  }
    }

    /// One page of the rating leaderboard: page 1, server page size.
    pub fn get(&self) -> (b: LeaderboardGetBuilder)
        ensures
            b.page_number() == 1,
            b.page_size_setting() is None,
    {
        LeaderboardGetBuilder { page: 1, page_size: None }
    }

    /// Every entry of the rating leaderboard, page by page.
    pub fn iter(&self) -> (b: LeaderboardIterBuilder)
        ensures
            b.page_size_setting() is None,
    {
        LeaderboardIterBuilder { page_size: None }
    }

    /// One page of the points leaderboard: page 1.
    pub fn points(&self) -> (b: PointsGetBuilder)
        ensures
            b.page_number() == 1,
    {
        PointsGetBuilder { page: 1 }
    }

    /// Every entry of the points leaderboard, page by page.
    pub fn points_iter(&self) -> PointsIterBuilder {
        PointsIterBuilder {  }
    }
}

/// Builder for [`LeaderboardResource::get`].
pub struct LeaderboardGetBuilder {
    page: u32,
    page_size: Option<u32>,
}

impl LeaderboardGetBuilder {
    /// The 1-indexed page.
    pub closed spec fn page_number(&self) -> u32 {
        self.page
    }

    /// The page size, when set.
    pub closed spec fn page_size_setting(&self) -> Option<u32> {
        self.page_size
    }

    /// Sets the 1-indexed page number. Default: `1`.
    pub fn page(self, page: u32) -> (b: Self)
        ensures
            b.page_number() == page,
            b.page_size_setting() == self.page_size_setting(),
    {
        LeaderboardGetBuilder { page, ..self }
    }

    /// Sets the page size. Left out of the query when not set.
    pub fn page_size(self, n: u32) -> (b: Self)
        ensures
            b.page_number() == self.page_number(),
            b.page_size_setting() == Some(n),
    {
        LeaderboardGetBuilder { page_size: Some(n), ..self }
    }

    /// The request: `GET /leaderboard` with `page` and, when set, `pageSize`.
    pub fn request(&self) -> (r: Request)
        ensures
            is_request(r, "/leaderboard"@, lb_query(self.page_number(), self.page_size_setting())),
    {
        Request { path: String::from_str("/leaderboard"), query: lb_params(self.page, self.page_size) }
    }
}

/// Builder for [`LeaderboardResource::iter`].
pub struct LeaderboardIterBuilder {
    page_size: Option<u32>,
}

impl LeaderboardIterBuilder {
    /// The page size, when set.
    pub closed spec fn page_size_setting(&self) -> Option<u32> {
        self.page_size
    }

    /// Sets the per-page batch size used while iterating.
    pub fn page_size(self, n: u32) -> (b: Self)
        ensures
            b.page_size_setting() == Some(n),
    {
        LeaderboardIterBuilder { page_size: Some(n) }
    }

    /// The walk over the pages; it heeds `totalPages`. Run against the
    /// server, it fetches `page_request(1)`, `page_request(2)`, … up to the
    /// first failed or empty page or the reported total, and no further
    /// (`pagination::law_walk_runs_to_first_end`; for this endpoint,
    /// [`law_leaderboard_stream`]).
    pub fn walk(&self) -> (w: PageWalk)
        ensures
            w@ == walk_start(true),
    {
        PageWalk::new(true)
    }

    /// The path and query of the request for page `page`.
    pub open spec fn page_target(&self, page: u32) -> (Seq<char>, Seq<(Seq<char>, Seq<char>)>) {
        ("/leaderboard"@, lb_query(page, self.page_size_setting()))
    }

    /// The request for page `page` of the walk.
    pub fn page_request(&self, page: u32) -> (r: Request)
        ensures
            is_request(r, "/leaderboard"@, lb_query(page, self.page_size_setting())),
    {
        Request { path: String::from_str("/leaderboard"), query: lb_params(page, self.page_size) }
    }

    /// The envelope field that holds a page's entries.
    pub fn items_field(&self) -> (f: &'static str)
        ensures
            f@ == "entries"@,
    {
        "entries"
    }
}

/// Builder for [`LeaderboardResource::points`].
pub struct PointsGetBuilder {
    page: u32,
}

impl PointsGetBuilder {
    /// The 1-indexed page.
    pub closed spec fn page_number(&self) -> u32 {
        self.page
    }

    /// Sets the 1-indexed page number. Default: `1`.
    pub fn page(self, page: u32) -> (b: Self)
        ensures
            b.page_number() == page,
    {
        PointsGetBuilder { page }
    }

    /// The request: `GET /points-leaderboard` with `page`.
    pub fn request(&self) -> (r: Request)
        ensures
            is_request(r, "/points-leaderboard"@, points_query(self.page_number())),
    {
        Request { path: String::from_str("/points-leaderboard"), query: points_params(self.page) }
    }
}

/// Builder for [`LeaderboardResource::points_iter`].
pub struct PointsIterBuilder {}

impl PointsIterBuilder {
    /// The walk over the pages; it heeds `totalPages`. Run against the
    /// server, it fetches `page_request(1)`, `page_request(2)`, … up to the
    /// first failed or empty page or the reported total, and no further
    /// (`pagination::law_walk_runs_to_first_end`; for this endpoint,
    /// [`law_points_stream`]).
    pub fn walk(&self) -> (w: PageWalk)
        ensures
            w@ == walk_start(true),
    {
        PageWalk::new(true)
    }

    /// The path and query of the request for page `page`.
    pub open spec fn page_target(&self, page: u32) -> (Seq<char>, Seq<(Seq<char>, Seq<char>)>) {
        ("/points-leaderboard"@, points_query(page))
    }

    /// The request for page `page` of the walk.
    pub fn page_request(&self, page: u32) -> (r: Request)
        ensures
            is_request(r, "/points-leaderboard"@, points_query(page)),
    {
        Request { path: String::from_str("/points-leaderboard"), query: points_params(page) }
    }

    /// The envelope field that holds a page's entries.
    pub fn items_field(&self) -> (f: &'static str)
        ensures
            f@ == "entries"@,
    {
        "entries"
    }
}

/// The stream of [`LeaderboardResource::iter`], run against a server whose answer to page `p`
/// is `pages[p - 1]`: with `j` the first page that fails, comes back
/// empty, or reaches the first usable `totalPages` reported so far, it
/// requests `GET /leaderboard` with `page=p` and, when set,
/// the builder's `pageSize` for `p = 1, 2, …, j` in that order and nothing
/// more (never page `t + 1` of a total `t`), yields every item of those
/// pages in order (the error of a failed page last), and ends.
pub proof fn law_leaderboard_stream<T>(
    b: LeaderboardIterBuilder,
    pages: Seq<Result<PageData<T>, ClientError>>,
    j: int,
)
    requires
        1 <= j <= pages.len(),
        pages.len() < u32::MAX,
        ends_walk(true, pages, j),
        forall|p: int| 1 <= p < j ==> !#[trigger] ends_walk(true, pages, p),
    ensures
        walk_trace(walk_start(true), pages, pages.len()).1.map_values(|p: u32| b.page_target(p))
            =~= Seq::new(j as nat, |i: int| b.page_target((i + 1) as u32)),
        walk_trace(walk_start(true), pages, pages.len()).2 =~= yields_through(pages, j),
        walk_trace(walk_start(true), pages, pages.len()).0.finished,
{
    law_walk_runs_to_first_end(true, pages, j);
}

/// The stream of [`LeaderboardResource::points_iter`], run against a server whose answer to page `p`
/// is `pages[p - 1]`: with `j` the first page that fails, comes back
/// empty, or reaches the first usable `totalPages` reported so far, it
/// requests `GET /points-leaderboard` with `page=p` alone for `p = 1, 2, …, j` in that order and nothing
/// more (never page `t + 1` of a total `t`), yields every item of those
/// pages in order (the error of a failed page last), and ends.
pub proof fn law_points_stream<T>(
    b: PointsIterBuilder,
    pages: Seq<Result<PageData<T>, ClientError>>,
    j: int,
)
    requires
        1 <= j <= pages.len(),
        pages.len() < u32::MAX,
        ends_walk(true, pages, j),
        forall|p: int| 1 <= p < j ==> !#[trigger] ends_walk(true, pages, p),
    ensures
        walk_trace(walk_start(true), pages, pages.len()).1.map_values(|p: u32| b.page_target(p))
            =~= Seq::new(j as nat, |i: int| b.page_target((i + 1) as u32)),
        walk_trace(walk_start(true), pages, pages.len()).2 =~= yields_through(pages, j),
        walk_trace(walk_start(true), pages, pages.len()).0.finished,
{
    law_walk_runs_to_first_end(true, pages, j);
}

/// The query of a rating-leaderboard page, on every page number (page 1
/// included): `page` first, then `pageSize` exactly when a page size is
/// set, and nothing else.
pub proof fn law_leaderboard_query(page: u32, page_size: Option<u32>)
    ensures
        lb_query(page, page_size).len() == 1 + count_if(page_size is Some),
        lb_query(page, page_size)[0] == ("page"@, decimal_text(page as nat)),
        page_size matches Some(n) ==> lb_query(page, page_size)[1] == ("pageSize"@, decimal_text(
            n as nat,
        )),
{
}

/// The query of a points-leaderboard page is `page` alone.
pub proof fn law_points_query(page: u32)
    ensures
        points_query(page).len() == 1,
        points_query(page)[0] == ("page"@, decimal_text(page as nat)),
{
}

} // verus!
