//! Tournament endpoints.

use vstd::prelude::*;

use crate::http::{pairs_text, Request};
use crate::resources::{count_if, is_request, join_path, opt_param, opt_text, path_request, push_param};
use crate::text::{bool_string, bool_text, decimal_text, i32_text, signed_decimal_text, u32_text};

verus! {

/// The query of a tournament-list request: `limit`, `offset` and `pinned`
/// always; then `dateFilter`, `tzOffset` and `active`, each only when set.
pub open spec fn tournament_list_query(
    limit: u32,
    offset: u32,
    pinned: bool,
    date_filter: Option<Seq<char>>,
    tz_offset: Option<i32>,
    active: Option<bool>,
) -> Seq<(Seq<char>, Seq<char>)> {
    seq![
        ("limit"@, decimal_text(limit as nat)),
        ("offset"@, decimal_text(offset as nat)),
        ("pinned"@, bool_text(pinned)),
    ] + opt_param("dateFilter"@, date_filter) + opt_param(
        "tzOffset"@,
        match tz_offset {
            Some(t) => Some(signed_decimal_text(t as int)),
            None => None,
        },
    ) + opt_param(
        "active"@,
        match active {
            Some(a) => Some(bool_text(a)),
            None => None,
        },
    )
}

/// Accessor for tournament endpoints.
pub struct TournamentsResource {}

impl TournamentsResource {
    /// The accessor.
    pub fn new() -> TournamentsResource {
        TournamentsResource {  }
    }

    /// `GET /tournament/list`. `limit` and `offset` are required by the
    /// server and always sent (defaults `10` and `0`); `pinned` defaults
    /// to `false`; the other filters are unset.
    pub fn list(&self) -> (b: TournamentsListBuilder)
        ensures
            b.limit_setting() == 10,
            b.offset_setting() == 0,
            !b.pinned_setting(),
            b.date_filter_setting() is None,
            b.tz_offset_setting() is None,
            b.active_setting() is None,
    {
        TournamentsListBuilder {
            limit: 10,
            offset: 0,
            pinned: false,
            date_filter: None,
            tz_offset: None,
            active: None,
        }
    }

    /// `GET /tournament/details/{tournament_id}`.
    pub fn details(&self, tournament_id: &str) -> (b: TournamentDetailsBuilder)
        ensures
            b.tournament_id_text() == tournament_id@,
    {
        TournamentDetailsBuilder { tournament_id: String::from_str(tournament_id) }
    }

    /// `GET /tournament/waitlist/{tournament_id}`.
    pub fn waitlist(&self, tournament_id: &str) -> (b: TournamentWaitlistBuilder)
        ensures
            b.tournament_id_text() == tournament_id@,
    {
        TournamentWaitlistBuilder { tournament_id: String::from_str(tournament_id) }
    }
}

/// Builder for [`TournamentsResource::list`].
pub struct TournamentsListBuilder {
    limit: u32,
    offset: u32,
    pinned: bool,
    date_filter: Option<String>,
    tz_offset: Option<i32>,
    active: Option<bool>,
}

impl TournamentsListBuilder {
    /// `limit`.
    pub closed spec fn limit_setting(&self) -> u32 {
        self.limit
    }

    /// `offset`.
    pub closed spec fn offset_setting(&self) -> u32 {
        self.offset
    }

    /// `pinned`.
    pub closed spec fn pinned_setting(&self) -> bool {
        self.pinned
    }

    /// `dateFilter`, when set.
    pub closed spec fn date_filter_setting(&self) -> Option<Seq<char>> {
        opt_text(self.date_filter)
    }

    /// `tzOffset` in minutes, when set.
    pub closed spec fn tz_offset_setting(&self) -> Option<i32> {
        self.tz_offset
    }

    /// `active`, when set.
    pub closed spec fn active_setting(&self) -> Option<bool> {
        self.active
    }

    /// Sets `limit`. Default `10`.
    pub fn limit(self, n: u32) -> (b: Self)
        ensures
            b.limit_setting() == n,
            b.offset_setting() == self.offset_setting(),
            b.pinned_setting() == self.pinned_setting(),
            b.date_filter_setting() == self.date_filter_setting(),
            b.tz_offset_setting() == self.tz_offset_setting(),
            b.active_setting() == self.active_setting(),
    {
        TournamentsListBuilder { limit: n, ..self }
    }

    /// Sets `offset`. Default `0`.
    pub fn offset(self, n: u32) -> (b: Self)
        ensures
            b.limit_setting() == self.limit_setting(),
            b.offset_setting() == n,
            b.pinned_setting() == self.pinned_setting(),
            b.date_filter_setting() == self.date_filter_setting(),
            b.tz_offset_setting() == self.tz_offset_setting(),
            b.active_setting() == self.active_setting(),
    {
        TournamentsListBuilder { offset: n, ..self }
    }

    /// Filters to pinned tournaments. Default `false`.
    pub fn pinned(self, v: bool) -> (b: Self)
        ensures
            b.limit_setting() == self.limit_setting(),
            b.offset_setting() == self.offset_setting(),
            b.pinned_setting() == v,
            b.date_filter_setting() == self.date_filter_setting(),
            b.tz_offset_setting() == self.tz_offset_setting(),
            b.active_setting() == self.active_setting(),
    {
        TournamentsListBuilder { pinned: v, ..self }
    }

    /// Sets `dateFilter` (left out when not set).
    pub fn date_filter(self, s: &str) -> (b: Self)
        ensures
            b.limit_setting() == self.limit_setting(),
            b.offset_setting() == self.offset_setting(),
            b.pinned_setting() == self.pinned_setting(),
            b.date_filter_setting() == Some(s@),
            b.tz_offset_setting() == self.tz_offset_setting(),
            b.active_setting() == self.active_setting(),
    {
        TournamentsListBuilder { date_filter: Some(String::from_str(s)), ..self }
    }

    /// Sets `tzOffset` in minutes (left out when not set). Only meaningful
    /// together with [`Self::date_filter`].
    pub fn tz_offset(self, n: i32) -> (b: Self)
        ensures
            b.limit_setting() == self.limit_setting(),
            b.offset_setting() == self.offset_setting(),
            b.pinned_setting() == self.pinned_setting(),
            b.date_filter_setting() == self.date_filter_setting(),
            b.tz_offset_setting() == Some(n),
            b.active_setting() == self.active_setting(),
    {
        TournamentsListBuilder { tz_offset: Some(n), ..self }
    }

    /// Sets the `active` filter (left out when not set).
    pub fn active(self, v: bool) -> (b: Self)
        ensures
            b.limit_setting() == self.limit_setting(),
            b.offset_setting() == self.offset_setting(),
            b.pinned_setting() == self.pinned_setting(),
            b.date_filter_setting() == self.date_filter_setting(),
            b.tz_offset_setting() == self.tz_offset_setting(),
            b.active_setting() == Some(v),
    {
        TournamentsListBuilder { active: Some(v), ..self }
    }

    /// The query parameters; see [`Self::request`].
    pub fn params(&self) -> (params: Vec<(&'static str, String)>)
        ensures
            pairs_text(params@) == tournament_list_query(
                self.limit_setting(),
                self.offset_setting(),
                self.pinned_setting(),
                self.date_filter_setting(),
                self.tz_offset_setting(),
                self.active_setting(),
            ),
    {
        let mut p: Vec<(&'static str, String)> = Vec::new();
        push_param(&mut p, "limit", u32_text(self.limit));
        push_param(&mut p, "offset", u32_text(self.offset));
        push_param(&mut p, "pinned", bool_string(self.pinned));
        if let Some(d) = &self.date_filter {
            push_param(&mut p, "dateFilter", d.clone());
        }
        if let Some(t) = self.tz_offset {
            push_param(&mut p, "tzOffset", i32_text(t));
        }
        if let Some(a) = self.active {
            push_param(&mut p, "active", bool_string(a));
        }
        assert(pairs_text(p@) =~= tournament_list_query(
            self.limit_setting(),
            self.offset_setting(),
            self.pinned_setting(),
            self.date_filter_setting(),
            self.tz_offset_setting(),
            self.active_setting(),
        ));
        p
    }

    /// The request: `GET /tournament/list` with the parameters above.
    pub fn request(&self) -> (r: Request)
        ensures
            is_request(
                r,
                "/tournament/list"@,
                tournament_list_query(
                    self.limit_setting(),
                    self.offset_setting(),
                    self.pinned_setting(),
                    self.date_filter_setting(),
                    self.tz_offset_setting(),
                    self.active_setting(),
                ),
            ),
    {
        Request { path: String::from_str("/tournament/list"), query: self.params() }
    }
}

/// Builder for [`TournamentsResource::details`].
pub struct TournamentDetailsBuilder {
    tournament_id: String,
}

impl TournamentDetailsBuilder {
    /// The tournament id.
    pub closed spec fn tournament_id_text(&self) -> Seq<char> {
        self.tournament_id@
    }

    /// The request: `GET /tournament/details/{tournament_id}`.
    pub fn request(&self) -> (r: Request)
        ensures
            is_request(r, "/tournament/details/"@ + self.tournament_id_text(), Seq::empty()),
    {
        path_request(join_path("/tournament/details/", self.tournament_id.as_str()))
    }
}

/// Builder for [`TournamentsResource::waitlist`].
pub struct TournamentWaitlistBuilder {
    tournament_id: String,
}

impl TournamentWaitlistBuilder {
    /// The tournament id.
    pub closed spec fn tournament_id_text(&self) -> Seq<char> {
        self.tournament_id@
    }

    /// The request: `GET /tournament/waitlist/{tournament_id}`.
    pub fn request(&self) -> (r: Request)
        ensures
            is_request(r, "/tournament/waitlist/"@ + self.tournament_id_text(), Seq::empty()),
    {
        path_request(join_path("/tournament/waitlist/", self.tournament_id.as_str()))
    }
}

/// The query of a tournament-list request: `limit`, `offset` and
/// `pinned` first, always; then each of `dateFilter`, `tzOffset` and
/// `active` exactly when it is set, independently of the others, in that
/// order: its length is three plus the number of filters set, and each set
/// filter stands at the position after the parameters before it.
pub proof fn law_tournament_list_query(
    limit: u32,
    offset: u32,
    pinned: bool,
    date_filter: Option<Seq<char>>,
    tz_offset: Option<i32>,
    active: Option<bool>,
)
    ensures
        ({
            let q = tournament_list_query(limit, offset, pinned, date_filter, tz_offset, active);
            &&& q.len() == 3 + count_if(date_filter is Some) + count_if(tz_offset is Some) + count_if(
                active is Some,
            )
            &&& q[0] == ("limit"@, decimal_text(limit as nat))
            &&& q[1] == ("offset"@, decimal_text(offset as nat))
            &&& q[2] == ("pinned"@, bool_text(pinned))
            &&& (date_filter matches Some(d) ==> q[3] == ("dateFilter"@, d))
            &&& (tz_offset matches Some(t) ==> q[3 + count_if(date_filter is Some)] == (
                "tzOffset"@,
                signed_decimal_text(t as int),
            ))
            &&& (active matches Some(a) ==> q[3 + count_if(date_filter is Some) + count_if(
                tz_offset is Some,
            )] == ("active"@, bool_text(a)))
        }),
{
}

} // verus!
