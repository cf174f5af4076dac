//! User endpoints: `GET /user/{identifier}` and
//! `GET /user/match-history/{address}` (single page and auto-paginating).

use vstd::prelude::*;

use crate::http::{pairs_text, Request};
use crate::error::ClientError;
use crate::pagination::{
    ends_walk, law_untracked_walk_ends_at_failure_or_empty, law_walk_runs_to_first_end, page_stops,
    report_of, walk_start, walk_trace, yields_through, PageData, PageWalk,
};
use crate::resources::{is_request, join_path, path_request, push_param};
use crate::text::{decimal_text, u32_text};

verus! {

/// The query of a match-history page: `page`, then `limit`.
pub open spec fn match_history_query(page: u32, limit: u32) -> Seq<(Seq<char>, Seq<char>)> {
    seq![("page"@, decimal_text(page as nat)), ("limit"@, decimal_text(limit as nat))]
}

fn match_history_params(page: u32, limit: u32) -> (params: Vec<(&'static str, String)>)
    ensures
        pairs_text(params@) == match_history_query(page, limit),
{
    let mut params: Vec<(&'static str, String)> = Vec::new();
    push_param(&mut params, "page", u32_text(page));
    push_param(&mut params, "limit", u32_text(limit));
    assert(pairs_text(params@) =~= match_history_query(page, limit));
    params
}

/// Accessor for user endpoints.
pub struct UsersResource {}

impl UsersResource {
    /// The accessor.
    pub fn new() -> UsersResource {
        UsersResource {  }
    }

    /// Looks up a user by username or wallet address.
    pub fn get(&self, identifier: &str) -> (b: UsersGetBuilder)
        ensures
            b.identifier_text() == identifier@,
    {
        UsersGetBuilder { identifier: String::from_str(identifier) }
    }

    /// One page of a user's match history: page 1, 15 matches (the live
    /// API's default).
    pub fn match_history(&self, address: &str) -> (b: MatchHistoryBuilder)
        ensures
            b.address_text() == address@,
            b.page_number() == 1,
            b.limit_setting() == 15,
    {
        MatchHistoryBuilder { address: String::from_str(address), page: 1, limit: 15 }
    }

    /// Every match in a user's history, page by page, 15 per page.
    pub fn match_history_iter(&self, address: &str) -> (b: MatchHistoryIterBuilder)
        ensures
            b.address_text() == address@,
            b.limit_setting() == 15,
    {
        MatchHistoryIterBuilder { address: String::from_str(address), limit: 15 }
    }
}

/// Builder for [`UsersResource::get`].
pub struct UsersGetBuilder {
    identifier: String,
}

impl UsersGetBuilder {
    /// The username or address looked up.
    pub closed spec fn identifier_text(&self) -> Seq<char> {
        self.identifier@
    }

    /// The request: `GET /user/{identifier}`. The server wraps the user in
    /// a `{"user": …}` envelope.
    pub fn request(&self) -> (r: Request)
        ensures
            is_request(r, "/user/"@ + self.identifier_text(), Seq::empty()),
    {
        path_request(join_path("/user/", self.identifier.as_str()))
    }
}

/// Builder for [`UsersResource::match_history`].
pub struct MatchHistoryBuilder {
    address: String,
    page: u32,
    limit: u32,
}

impl MatchHistoryBuilder {
    /// The wallet address.
    pub closed spec fn address_text(&self) -> Seq<char> {
        self.address@
    }

    /// The 1-indexed page.
    pub closed spec fn page_number(&self) -> u32 {
        self.page
    }

    /// The page size.
    pub closed spec fn limit_setting(&self) -> u32 {
        self.limit
    }

    /// Sets the 1-indexed page number. Default: `1`.
    pub fn page(self, page: u32) -> (b: Self)
        ensures
            b.address_text() == self.address_text(),
            b.page_number() == page,
            b.limit_setting() == self.limit_setting(),
    {
        MatchHistoryBuilder { page, ..self }
    }

    /// Sets the page size. Default: `15`.
    pub fn limit(self, limit: u32) -> (b: Self)
        ensures
            b.address_text() == self.address_text(),
            b.page_number() == self.page_number(),
            b.limit_setting() == limit,
    {
        MatchHistoryBuilder { limit, ..self }
    }

    /// The request: `GET /user/match-history/{address}` with `page` and
    /// `limit`.
    pub fn request(&self) -> (r: Request)
        ensures
            is_request(
                r,
                "/user/match-history/"@ + self.address_text(),
                match_history_query(self.page_number(), self.limit_setting()),
            ),
    {
        Request {
            path: join_path("/user/match-history/", self.address.as_str()),
            query: match_history_params(self.page, self.limit),
        }
    }
}

/// Builder for [`UsersResource::match_history_iter`]. The endpoint does
/// not report `totalPages`: the walk stops on the first empty page.
pub struct MatchHistoryIterBuilder {
    address: String,
    limit: u32,
}

impl MatchHistoryIterBuilder {
    /// The wallet address.
    pub closed spec fn address_text(&self) -> Seq<char> {
        self.address@
    }

    /// The page size.
    pub closed spec fn limit_setting(&self) -> u32 {
        self.limit
    }

    /// Sets the per-page batch size used while iterating. Default: `15`.
    pub fn limit(self, limit: u32) -> (b: Self)
        ensures
            b.address_text() == self.address_text(),
            b.limit_setting() == limit,
    {
        MatchHistoryIterBuilder { limit, ..self }
    }

    /// The walk over the pages; the endpoint reports no total. Run against
    /// the server, it fetches `page_request(1)`, `page_request(2)`, … up
    /// to the first failed or empty page, and no further
    /// (`pagination::law_walk_runs_to_first_end`,
    /// `pagination::law_untracked_walk_ends_at_failure_or_empty`; for this
    /// endpoint, [`law_match_history_stream`]).
    pub fn walk(&self) -> (w: PageWalk)
        ensures
            w@ == walk_start(false),
    {
        PageWalk::new(false)
    }

    /// The path and query of the request for page `page`.
    pub open spec fn page_target(&self, page: u32) -> (Seq<char>, Seq<(Seq<char>, Seq<char>)>) {
        ("/user/match-history/"@ + self.address_text(), match_history_query(page, self.limit_setting()))
    }

    /// The request for page `page` of the walk.
    pub fn page_request(&self, page: u32) -> (r: Request)
        ensures
            is_request(
                r,
                "/user/match-history/"@ + self.address_text(),
                match_history_query(page, self.limit_setting()),
            ),
    {
        Request {
            path: join_path("/user/match-history/", self.address.as_str()),
            query: match_history_params(page, self.limit),
        }
    }

    /// The envelope field that holds a page's matches.
    pub fn items_field(&self) -> (f: &'static str)
        ensures
            f@ == "matches"@,
    {
        "matches"
    }
}

/// The stream of [`UsersResource::match_history_iter`], run against a
/// server whose answer to page `p` is `pages[p - 1]`: with `j` the first
/// page that fails or comes back empty, it requests
/// `GET /user/match-history/{address}` with `page=p` and the builder's
/// `limit` for `p = 1, 2, …, j` in that order and nothing more, whatever
/// `totalPages` the pages report, yields every match of those pages in
/// order (the error of a failed page last), and ends.
pub proof fn law_match_history_stream<T>(
    b: MatchHistoryIterBuilder,
    pages: Seq<Result<PageData<T>, ClientError>>,
    j: int,
)
    requires
        1 <= j <= pages.len(),
        pages.len() < u32::MAX,
        page_stops(report_of(pages[j - 1])),
        forall|p: int| 1 <= p < j ==> !#[trigger] page_stops(report_of(pages[p - 1])),
    ensures
        walk_trace(walk_start(false), pages, pages.len()).1.map_values(|p: u32| b.page_target(p))
            =~= Seq::new(j as nat, |i: int| b.page_target((i + 1) as u32)),
        walk_trace(walk_start(false), pages, pages.len()).2 =~= yields_through(pages, j),
        walk_trace(walk_start(false), pages, pages.len()).0.finished,
{
    assert forall|p: int| 1 <= p <= j implies #[trigger] ends_walk(false, pages, p) == page_stops(
        report_of(pages[p - 1]),
    ) by {
        law_untracked_walk_ends_at_failure_or_empty(pages, p);
    }
    law_walk_runs_to_first_end(false, pages, j);
}

/// The query of a match-history page is `page`, then `limit`, on every
/// page number.
pub proof fn law_match_history_query(page: u32, limit: u32)
    ensures
        match_history_query(page, limit).len() == 2,
        match_history_query(page, limit)[0] == ("page"@, decimal_text(page as nat)),
        match_history_query(page, limit)[1] == ("limit"@, decimal_text(limit as nat)),
{
}

} // verus!
