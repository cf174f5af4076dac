//! Miscellaneous endpoints: public config, ETH/USD price, vault balance,
//! live feed.

use vstd::prelude::*;

use crate::http::{pairs_text, Request};
use crate::resources::{count_if, fixed_request, is_request, opt_decimal, opt_param, opt_text, push_param};
use crate::text::{decimal_text, u32_text};

verus! {

/// The query of a live-feed request: `since`, `type` and `limit`, each
/// only when set, in that order.
pub open spec fn live_feed_query(since: Option<Seq<char>>, event_type: Option<Seq<char>>, limit: Option<u32>) -> Seq<
    (Seq<char>, Seq<char>),
> {
    opt_param("since"@, since) + opt_param("type"@, event_type) + opt_param(
        "limit"@,
        opt_decimal(limit),
    )
}

/// Accessor for miscellaneous endpoints.
pub struct MiscResource {}

impl MiscResource {
    /// The accessor.
    pub fn new() -> MiscResource {
        MiscResource {  }
    }

    /// `GET /config/public`.
    pub fn config(&self) -> ConfigBuilder {
        ConfigBuilder {  }
    }

    /// `GET /eth-usd-price`.
    pub fn eth_usd_price(&self) -> EthUsdPriceBuilder {
        EthUsdPriceBuilder {  }
    }

    /// `GET /vault-balance` (unwrapped from `{"balance": …}`).
    pub fn vault_balance(&self) -> VaultBalanceBuilder {
        VaultBalanceBuilder {  }
    }

    /// `GET /live-feed`, without filters.
    pub fn live_feed(&self) -> (b: LiveFeedBuilder)
        ensures
            b.since_setting() is None,
            b.event_type_setting() is None,
            b.limit_setting() is None,
    {
        LiveFeedBuilder { since: None, type_: None, limit: None }
    }
}

/// Builder for [`MiscResource::config`].
pub struct ConfigBuilder {}

impl ConfigBuilder {
    /// The request: `GET /config/public`.
    pub fn request(&self) -> (r: Request)
        ensures
            is_request(r, "/config/public"@, Seq::empty()),
    {
        fixed_request("/config/public")
    }
}

/// Builder for [`MiscResource::eth_usd_price`].
pub struct EthUsdPriceBuilder {}

impl EthUsdPriceBuilder {
    /// The request: `GET /eth-usd-price`.
    pub fn request(&self) -> (r: Request)
        ensures
            is_request(r, "/eth-usd-price"@, Seq::empty()),
    {
        fixed_request("/eth-usd-price")
    }
}

/// Builder for [`MiscResource::vault_balance`].
pub struct VaultBalanceBuilder {}

impl VaultBalanceBuilder {
    /// The request: `GET /vault-balance`.
    pub fn request(&self) -> (r: Request)
        ensures
            is_request(r, "/vault-balance"@, Seq::empty()),
    {
        fixed_request("/vault-balance")
    }
}

/// Builder for [`MiscResource::live_feed`].
pub struct LiveFeedBuilder {
    since: Option<String>,
    type_: Option<String>,
    limit: Option<u32>,
}

impl LiveFeedBuilder {
    /// The `since` filter, when set.
    pub closed spec fn since_setting(&self) -> Option<Seq<char>> {
        opt_text(self.since)
    }

    /// The `type` filter, when set.
    pub closed spec fn event_type_setting(&self) -> Option<Seq<char>> {
        opt_text(self.type_)
    }

    /// The `limit`, when set.
    pub closed spec fn limit_setting(&self) -> Option<u32> {
        self.limit
    }

    /// Sets `since` (an ISO-8601 datetime).
    pub fn since(self, since: &str) -> (b: Self)
        ensures
            b.since_setting() == Some(since@),
            b.event_type_setting() == self.event_type_setting(),
            b.limit_setting() == self.limit_setting(),
    {
        LiveFeedBuilder { since: Some(String::from_str(since)), ..self }
    }

    /// Sets the `type` filter.
    pub fn event_type(self, t: &str) -> (b: Self)
        ensures
            b.since_setting() == self.since_setting(),
            b.event_type_setting() == Some(t@),
            b.limit_setting() == self.limit_setting(),
    {
        LiveFeedBuilder { type_: Some(String::from_str(t)), ..self }
    }

    /// Sets `limit`.
    pub fn limit(self, n: u32) -> (b: Self)
        ensures
            b.since_setting() == self.since_setting(),
            b.event_type_setting() == self.event_type_setting(),
            b.limit_setting() == Some(n),
    {
        LiveFeedBuilder { limit: Some(n), ..self }
    }

    /// The query parameters: the filters that are set.
    pub fn params(&self) -> (params: Vec<(&'static str, String)>)
        ensures
            pairs_text(params@) == live_feed_query(
                self.since_setting(),
                self.event_type_setting(),
                self.limit_setting(),
            ),
    {
        let mut p: Vec<(&'static str, String)> = Vec::new();
        assert(pairs_text(p@) =~= Seq::empty());
        if let Some(s) = &self.since {
            push_param(&mut p, "since", s.clone());
        }
        if let Some(t) = &self.type_ {
            push_param(&mut p, "type", t.clone());
        }
        if let Some(n) = self.limit {
            push_param(&mut p, "limit", u32_text(n));
        }
        assert(pairs_text(p@) =~= live_feed_query(
            self.since_setting(),
            self.event_type_setting(),
            self.limit_setting(),
        ));
        p
    }

    /// The request: `GET /live-feed` with the filters that are set.
    pub fn request(&self) -> (r: Request)
        ensures
            is_request(
                r,
                "/live-feed"@,
                live_feed_query(self.since_setting(), self.event_type_setting(), self.limit_setting()),
            ),
    {
        Request { path: String::from_str("/live-feed"), query: self.params() }
    }
}

/// The query of a live-feed request holds each filter exactly when it is
/// set, independently of the others, in the order `since`, `type`,
/// `limit`: its length is the number of filters set, and each set filter
/// stands at the position after the set filters before it.
pub proof fn law_live_feed_query(
    since: Option<Seq<char>>,
    event_type: Option<Seq<char>>,
    limit: Option<u32>,
)
    ensures
        live_feed_query(since, event_type, limit).len() == count_if(since is Some) + count_if(
            event_type is Some,
        ) + count_if(limit is Some),
        since matches Some(x) ==> live_feed_query(since, event_type, limit)[0] == ("since"@, x),
        event_type matches Some(x) ==> live_feed_query(since, event_type, limit)[count_if(
            since is Some,
        )] == ("type"@, x),
        limit matches Some(n) ==> live_feed_query(since, event_type, limit)[count_if(since is Some)
            + count_if(event_type is Some)] == ("limit"@, decimal_text(n as nat)),
{
}

} // verus!
