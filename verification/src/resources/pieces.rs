//! Piece endpoints: `GET /pieces/{address}` and
//! `GET /burned-pieces/{address}`, each with a single-page builder and an
//! auto-paginating one.

use vstd::prelude::*;

use crate::http::{pairs_text, Request};
use crate::error::ClientError;
use crate::pagination::{
    ends_walk, law_walk_runs_to_first_end, walk_start, walk_trace, yields_through, PageData, PageWalk,
};
use crate::resources::{count_if, is_request, join_path, opt_decimal, opt_param, push_param};
use crate::text::{decimal_text, u32_text};

verus! {

/// The query of a pieces page: `page`, `limit` when set, and
/// `grouped=true` when grouping is asked for.
pub open spec fn pieces_query(page: u32, limit: Option<u32>, grouped: bool) -> Seq<
    (Seq<char>, Seq<char>),
> {
    seq![("page"@, decimal_text(page as nat))] + opt_param("limit"@, opt_decimal(limit))
        + opt_param("grouped"@, if grouped { Some("true"@) } else { None })
}

/// The query of a burned-pieces page: `page`, then `limit` when set.
pub open spec fn burned_query(page: u32, limit: Option<u32>) -> Seq<(Seq<char>, Seq<char>)> {
    seq![("page"@, decimal_text(page as nat))] + opt_param("limit"@, opt_decimal(limit))
}

/// The query parameters of a pieces page.
pub fn pieces_params(page: u32, limit: Option<u32>, grouped: bool) -> (params: Vec<
    (&'static str, String),
>)
    ensures
        pairs_text(params@) == pieces_query(page, limit, grouped),
{
    let mut params: Vec<(&'static str, String)> = Vec::new();
    push_param(&mut params, "page", u32_text(page));
    if let Some(l) = limit {
        push_param(&mut params, "limit", u32_text(l));
    }
    if grouped {
        push_param(&mut params, "grouped", String::from_str("true"));
    }
    assert(pairs_text(params@) =~= pieces_query(page, limit, grouped));
    params
}

/// The query parameters of a burned-pieces page.
pub fn burned_params(page: u32, limit: Option<u32>) -> (params: Vec<(&'static str, String)>)
    ensures
        pairs_text(params@) == burned_query(page, limit),
{
    let mut params: Vec<(&'static str, String)> = Vec::new();
    push_param(&mut params, "page", u32_text(page));
    if let Some(l) = limit {
        push_param(&mut params, "limit", u32_text(l));
    }
    assert(pairs_text(params@) =~= burned_query(page, limit));
    params
}

/// Accessor for piece endpoints.
pub struct PiecesResource {}

impl PiecesResource {
    /// The accessor.
    pub fn new() -> PiecesResource {
        PiecesResource {  }
    }

    /// One page of the pieces `address` owns: page 1, server limit,
    /// ungrouped.
    pub fn get(&self, address: &str) -> (b: PiecesGetBuilder)
        ensures
            b.address_text() == address@,
            b.page_number() == 1,
            b.limit_setting() is None,
            !b.is_grouped(),
    {
        PiecesGetBuilder { address: String::from_str(address), page: 1, limit: None, grouped: false }
    }

    /// Every piece `address` owns, page by page, ungrouped.
    pub fn iter(&self, address: &str) -> (b: PiecesIterBuilder)
        ensures
            b.address_text() == address@,
            b.limit_setting() is None,
            !b.is_grouped(),
    {
        PiecesIterBuilder { address: String::from_str(address), limit: None, grouped: false }
    }

    /// One page of the burned pieces tied to `address`: page 1.
    pub fn burned(&self, address: &str) -> (b: BurnedGetBuilder)
        ensures
            b.address_text() == address@,
            b.page_number() == 1,
            b.limit_setting() is None,
    {
        BurnedGetBuilder { address: String::from_str(address), page: 1, limit: None }
    }

    /// Every burned piece tied to `address`, page by page.
    pub fn burned_iter(&self, address: &str) -> (b: BurnedIterBuilder)
        ensures
            b.address_text() == address@,
            b.limit_setting() is None,
    {
        BurnedIterBuilder { address: String::from_str(address), limit: None }
    }
}

/// Builder for [`PiecesResource::get`].
pub struct PiecesGetBuilder {
    address: String,
    page: u32,
    limit: Option<u32>,
    grouped: bool,
}

impl PiecesGetBuilder {
    /// The owner's address.
    pub closed spec fn address_text(&self) -> Seq<char> {
        self.address@
    }

    /// The 1-indexed page.
    pub closed spec fn page_number(&self) -> u32 {
        self.page
    }

    /// The per-page limit, when set.
    pub closed spec fn limit_setting(&self) -> Option<u32> {
        self.limit
    }

    /// Whether grouping is asked for.
    pub closed spec fn is_grouped(&self) -> bool {
        self.grouped
    }

    /// Sets the 1-indexed page. Default: `1`.
    pub fn page(self, page: u32) -> (b: Self)
        ensures
            b.address_text() == self.address_text(),
            b.page_number() == page,
            b.limit_setting() == self.limit_setting(),
            b.is_grouped() == self.is_grouped(),
    {
        PiecesGetBuilder { page, ..self }
    }

    /// Sets the per-page limit. Left out of the query when not set.
    pub fn limit(self, limit: u32) -> (b: Self)
        ensures
            b.address_text() == self.address_text(),
            b.page_number() == self.page_number(),
            b.limit_setting() == Some(limit),
            b.is_grouped() == self.is_grouped(),
    {
        PiecesGetBuilder { limit: Some(limit), ..self }
    }

    /// When `true`, asks the server to collapse duplicates of the same
    /// piece into one row with a `count`.
    pub fn grouped(self, grouped: bool) -> (b: Self)
        ensures
            b.address_text() == self.address_text(),
            b.page_number() == self.page_number(),
            b.limit_setting() == self.limit_setting(),
            b.is_grouped() == grouped,
    {
        PiecesGetBuilder { grouped, ..self }
    }

    /// The request: `GET /pieces/{address}` with `page`, `limit` when
    /// set, and `grouped=true` when grouping.
    pub fn request(&self) -> (r: Request)
        ensures
            is_request(
                r,
                "/pieces/"@ + self.address_text(),
                pieces_query(self.page_number(), self.limit_setting(), self.is_grouped()),
            ),
    {
        Request {
            path: join_path("/pieces/", self.address.as_str()),
            query: pieces_params(self.page, self.limit, self.grouped),
        }
    }
}

/// Builder for [`PiecesResource::iter`].
pub struct PiecesIterBuilder {
    address: String,
    limit: Option<u32>,
    grouped: bool,
}

impl PiecesIterBuilder {
    /// The owner's address.
    pub closed spec fn address_text(&self) -> Seq<char> {
        self.address@
    }

    /// The per-page limit, when set.
    pub closed spec fn limit_setting(&self) -> Option<u32> {
        self.limit
    }

    /// Whether grouping is asked for.
    pub closed spec fn is_grouped(&self) -> bool {
        self.grouped
    }

    /// Sets the per-page batch size used while iterating.
    pub fn limit(self, limit: u32) -> (b: Self)
        ensures
            b.address_text() == self.address_text(),
            b.limit_setting() == Some(limit),
            b.is_grouped() == self.is_grouped(),
    {
        PiecesIterBuilder { limit: Some(limit), ..self }
    }

    /// See [`PiecesGetBuilder::grouped`].
    pub fn grouped(self, grouped: bool) -> (b: Self)
        ensures
            b.address_text() == self.address_text(),
            b.limit_setting() == self.limit_setting(),
            b.is_grouped() == grouped,
    {
        PiecesIterBuilder { grouped, ..self }
    }

    /// The walk over the pages; it heeds `totalPages`. Run against the
    /// server, it fetches `page_request(1)`, `page_request(2)`, … up to the
    /// first failed or empty page or the reported total, and no further
    /// (`pagination::law_walk_runs_to_first_end`; for this endpoint,
    /// [`law_pieces_stream`]).
    pub fn walk(&self) -> (w: PageWalk)
        ensures
            w@ == walk_start(true),
    {
        PageWalk::new(true)
    }

    /// The path and query of the request for page `page`.
    pub open spec fn page_target(&self, page: u32) -> (Seq<char>, Seq<(Seq<char>, Seq<char>)>) {
        ("/pieces/"@ + self.address_text(), pieces_query(page, self.limit_setting(), self.is_grouped()))
    }

    /// The request for page `page` of the walk.
    pub fn page_request(&self, page: u32) -> (r: Request)
        ensures
            is_request(
                r,
                "/pieces/"@ + self.address_text(),
                pieces_query(page, self.limit_setting(), self.is_grouped()),
            ),
    {
        Request {
            path: join_path("/pieces/", self.address.as_str()),
            query: pieces_params(page, self.limit, self.grouped),
        }
    }

    /// The envelope field that holds a page's pieces.
    pub fn items_field(&self) -> (f: &'static str)
        ensures
            f@ == "pieces"@,
    {
        "pieces"
    }
}

/// Builder for [`PiecesResource::burned`].
pub struct BurnedGetBuilder {
    address: String,
    page: u32,
    limit: Option<u32>,
}

impl BurnedGetBuilder {
    /// The address the burns are tied to.
    pub closed spec fn address_text(&self) -> Seq<char> {
        self.address@
    }

    /// The 1-indexed page.
    pub closed spec fn page_number(&self) -> u32 {
        self.page
    }

    /// The per-page limit, when set.
    pub closed spec fn limit_setting(&self) -> Option<u32> {
        self.limit
    }

    /// Sets the 1-indexed page. Default: `1`.
    pub fn page(self, page: u32) -> (b: Self)
        ensures
            b.address_text() == self.address_text(),
            b.page_number() == page,
            b.limit_setting() == self.limit_setting(),
    {
        BurnedGetBuilder { page, ..self }
    }

    /// Sets the per-page limit. Left out of the query when not set.
    pub fn limit(self, limit: u32) -> (b: Self)
        ensures
            b.address_text() == self.address_text(),
            b.page_number() == self.page_number(),
            b.limit_setting() == Some(limit),
    {
        BurnedGetBuilder { limit: Some(limit), ..self }
    }

    /// The request: `GET /burned-pieces/{address}` with `page` and, when
    /// set, `limit`.
    pub fn request(&self) -> (r: Request)
        ensures
            is_request(
                r,
                "/burned-pieces/"@ + self.address_text(),
                burned_query(self.page_number(), self.limit_setting()),
            ),
    {
        Request {
            path: join_path("/burned-pieces/", self.address.as_str()),
            query: burned_params(self.page, self.limit),
        }
    }
}

/// Builder for [`PiecesResource::burned_iter`].
pub struct BurnedIterBuilder {
    address: String,
    limit: Option<u32>,
}

impl BurnedIterBuilder {
    /// The address the burns are tied to.
    pub closed spec fn address_text(&self) -> Seq<char> {
        self.address@
    }

    /// The per-page limit, when set.
    pub closed spec fn limit_setting(&self) -> Option<u32> {
        self.limit
    }

    /// Sets the per-page batch size used while iterating.
    pub fn limit(self, limit: u32) -> (b: Self)
        ensures
            b.address_text() == self.address_text(),
            b.limit_setting() == Some(limit),
    {
        BurnedIterBuilder { limit: Some(limit), ..self }
    }

    /// The walk over the pages; it heeds `totalPages`. Run against the
    /// server, it fetches `page_request(1)`, `page_request(2)`, … up to the
    /// first failed or empty page or the reported total, and no further
    /// (`pagination::law_walk_runs_to_first_end`; for this endpoint,
    /// [`law_burned_stream`]).
    pub fn walk(&self) -> (w: PageWalk)
        ensures
            w@ == walk_start(true),
    {
        PageWalk::new(true)
    }

    /// The path and query of the request for page `page`.
    pub open spec fn page_target(&self, page: u32) -> (Seq<char>, Seq<(Seq<char>, Seq<char>)>) {
        ("/burned-pieces/"@ + self.address_text(), burned_query(page, self.limit_setting()))
    }

    /// The request for page `page` of the walk.
    pub fn page_request(&self, page: u32) -> (r: Request)
        ensures
            is_request(
                r,
                "/burned-pieces/"@ + self.address_text(),
                burned_query(page, self.limit_setting()),
            ),
    {
        Request {
            path: join_path("/burned-pieces/", self.address.as_str()),
            query: burned_params(page, self.limit),
        }
    }

    /// The envelope field that holds a page's pieces.
    pub fn items_field(&self) -> (f: &'static str)
        ensures
            f@ == "pieces"@,
    {
        "pieces"
    }
}

/// The stream of [`PiecesResource::iter`], run against a server whose answer to page `p`
/// is `pages[p - 1]`: with `j` the first page that fails, comes back
/// empty, or reaches the first usable `totalPages` reported so far, it
/// requests `GET /pieces/{address}` with `page=p` and the
/// builder's `limit` and `grouped` on every page for `p = 1, 2, …, j` in that order and nothing
/// more (never page `t + 1` of a total `t`), yields every item of those
/// pages in order (the error of a failed page last), and ends.
pub proof fn law_pieces_stream<T>(
    b: PiecesIterBuilder,
    pages: Seq<Result<PageData<T>, ClientError>>,
    j: int,
)
    requires
        1 <= j <= pages.len(),
        pages.len() < u32::MAX,
        ends_walk(true, pages, j),
        forall|p: int| 1 <= p < j ==> !#[trigger] ends_walk(true, pages, p),
    ensures
        walk_trace(walk_start(true), pages, pages.len()).1.map_values(|p: u32| b.page_target(p))
            =~= Seq::new(j as nat, |i: int| b.page_target((i + 1) as u32)),
        walk_trace(walk_start(true), pages, pages.len()).2 =~= yields_through(pages, j),
        walk_trace(walk_start(true), pages, pages.len()).0.finished,
{
    law_walk_runs_to_first_end(true, pages, j);
}

/// The stream of [`PiecesResource::burned_iter`], run against a server whose answer to page `p`
/// is `pages[p - 1]`: with `j` the first page that fails, comes back
/// empty, or reaches the first usable `totalPages` reported so far, it
/// requests `GET /burned-pieces/{address}` with `page=p` and
/// the builder's `limit` on every page for `p = 1, 2, …, j` in that order and nothing
/// more (never page `t + 1` of a total `t`), yields every item of those
/// pages in order (the error of a failed page last), and ends.
pub proof fn law_burned_stream<T>(
    b: BurnedIterBuilder,
    pages: Seq<Result<PageData<T>, ClientError>>,
    j: int,
)
    requires
        1 <= j <= pages.len(),
        pages.len() < u32::MAX,
        ends_walk(true, pages, j),
        forall|p: int| 1 <= p < j ==> !#[trigger] ends_walk(true, pages, p),
    ensures
        walk_trace(walk_start(true), pages, pages.len()).1.map_values(|p: u32| b.page_target(p))
            =~= Seq::new(j as nat, |i: int| b.page_target((i + 1) as u32)),
        walk_trace(walk_start(true), pages, pages.len()).2 =~= yields_through(pages, j),
        walk_trace(walk_start(true), pages, pages.len()).0.finished,
{
    law_walk_runs_to_first_end(true, pages, j);
}

/// The query of a pieces page, on every page number: `page` first, then
/// `limit` exactly when a limit is set, then `grouped=true` exactly when
/// grouping is asked for, each whatever the other is.
pub proof fn law_pieces_query(page: u32, limit: Option<u32>, grouped: bool)
    ensures
        pieces_query(page, limit, grouped).len() == 1 + count_if(limit is Some) + count_if(grouped),
        pieces_query(page, limit, grouped)[0] == ("page"@, decimal_text(page as nat)),
        limit matches Some(n) ==> pieces_query(page, limit, grouped)[1] == ("limit"@, decimal_text(
            n as nat,
        )),
        grouped ==> pieces_query(page, limit, grouped)[1 + count_if(limit is Some)] == (
            "grouped"@,
            "true"@,
        ),
{
}

/// The query of a burned-pieces page, on every page number: `page`
/// first, then `limit` exactly when a limit is set.
pub proof fn law_burned_query(page: u32, limit: Option<u32>)
    ensures
        burned_query(page, limit).len() == 1 + count_if(limit is Some),
        burned_query(page, limit)[0] == ("page"@, decimal_text(page as nat)),
        limit matches Some(n) ==> burned_query(page, limit)[1] == ("limit"@, decimal_text(
            n as nat,
        )),
{
}

} // verus!
