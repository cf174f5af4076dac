//! Entry point: the client's configuration and its endpoint groups.

use vstd::prelude::*;

use crate::error::ClientError;
use crate::http::{
    config_outcome, effective_user_agent, header_char_ok, valid_header_value, HttpConfig,
    DEFAULT_BASE_URL, DEFAULT_USER_AGENT,
};
use crate::resources::auctions::AuctionsResource;
use crate::resources::games::GamesResource;
use crate::resources::leaderboard::LeaderboardResource;
use crate::resources::misc::MiscResource;
use crate::resources::pieces::PiecesResource;
use crate::resources::ranks::RanksResource;
use crate::resources::tournaments::TournamentsResource;
use crate::resources::users::UsersResource;

verus! {

/// The configuration inside a client result.
pub open spec fn client_config(r: Result<PixieChessClient, ClientError>) -> Result<HttpConfig, ClientError> {
    match r {
        Ok(c) => Ok(c.http),
        Err(e) => Err(e),
    }
}

/// A client of `api.pixiechess.xyz`: the base URL and the browser-like
/// default headers (`Origin`, `Referer`, `User-Agent`, `sec-fetch-*`) that
/// the API requires, and accessors for every endpoint group.
pub struct PixieChessClient {
    pub http: HttpConfig,
}

impl PixieChessClient {
    /// A client of the default base URL (`https://api.pixiechess.xyz`)
    /// with the default user agent.
    pub fn new() -> (r: Result<PixieChessClient, ClientError>)
        ensures
            config_outcome(client_config(r), DEFAULT_BASE_URL@, DEFAULT_USER_AGENT@),
    {
        match HttpConfig::new(DEFAULT_BASE_URL, None) {
            Ok(http) => Ok(PixieChessClient { http }),
            Err(e) => Err(e),
        }
    }

    /// A builder, for callers that override the base URL or user agent.
    pub fn builder() -> (b: PixieChessClientBuilder)
        ensures
            b.base_url_setting() is None,
            b.user_agent_setting() is None,
    {
        PixieChessClientBuilder { base_url: None, user_agent: None }
    }

    /// User endpoints.
    pub fn users(&self) -> UsersResource {
        UsersResource::new()
    }

    /// Game endpoints.
    pub fn games(&self) -> GamesResource {
        GamesResource::new()
    }

    /// Leaderboard endpoints.
    pub fn leaderboard(&self) -> LeaderboardResource {
        LeaderboardResource::new()
    }

    /// Piece endpoints.
    pub fn pieces(&self) -> PiecesResource {
        PiecesResource::new()
    }

    /// Auction endpoints.
    pub fn auctions(&self) -> AuctionsResource {
        AuctionsResource::new()
    }

    /// Tournament endpoints.
    pub fn tournaments(&self) -> TournamentsResource {
        TournamentsResource::new()
    }

    /// Miscellaneous endpoints.
    pub fn misc(&self) -> MiscResource {
        MiscResource::new()
    }

    /// Ranks endpoints.
    pub fn ranks(&self) -> RanksResource {
        RanksResource::new()
    }
}

/// Builder for [`PixieChessClient`]: configures the base URL and the
/// user agent.
pub struct PixieChessClientBuilder {
    base_url: Option<String>,
    user_agent: Option<String>,
}

impl Default for PixieChessClientBuilder {
    fn default() -> (b: Self)
        ensures
            b.base_url_setting() is None,
            b.user_agent_setting() is None,
    {
        PixieChessClientBuilder { base_url: None, user_agent: None }
    }
}

impl PixieChessClientBuilder {
    /// The base URL override, when set.
    pub closed spec fn base_url_setting(&self) -> Option<Seq<char>> {
        match self.base_url {
            Some(u) => Some(u@),
            None => None,
        }
    }

    /// The user agent override, when set.
    pub closed spec fn user_agent_setting(&self) -> Option<Seq<char>> {
        match self.user_agent {
            Some(u) => Some(u@),
            None => None,
        }
    }

    /// The base URL a built client uses: the override or the default.
    pub open spec fn effective_base_url(&self) -> Seq<char> {
        match self.base_url_setting() {
            Some(u) => u,
            None => DEFAULT_BASE_URL@,
        }
    }

    /// Overrides the base URL the client will hit (a mock server, say).
    pub fn base_url(self, url: &str) -> (b: Self)
        ensures
            b.base_url_setting() == Some(url@),
            b.user_agent_setting() == self.user_agent_setting(),
    {
        PixieChessClientBuilder { base_url: Some(String::from_str(url)), ..self }
    }

    /// Replaces the `User-Agent` header. The WAF may reject agents that do
    /// not look like a browser; suffixing [`DEFAULT_USER_AGENT`] is safe.
    pub fn user_agent(self, ua: &str) -> (b: Self)
        ensures
            b.base_url_setting() == self.base_url_setting(),
            b.user_agent_setting() == Some(ua@),
    {
        PixieChessClientBuilder { user_agent: Some(String::from_str(ua)), ..self }
    }

    /// Constructs the client. Fails when the user agent is not a valid
    /// header value or the base URL does not parse.
    pub fn build(self) -> (r: Result<PixieChessClient, ClientError>)
        ensures
            config_outcome(
                client_config(r),
                self.effective_base_url(),
                effective_user_agent(self.user_agent_setting()),
            ),
    {
        let url: &str = match &self.base_url {
            Some(u) => u.as_str(),
            None => DEFAULT_BASE_URL,
        };
        let ua: Option<&str> = match &self.user_agent {
            Some(u) => Some(u.as_str()),
            None => None,
        };
        match HttpConfig::new(url, ua) {
            Ok(http) => Ok(PixieChessClient { http }),
            Err(e) => Err(e),
        }
    }
}

/// The default user agent is a valid header value, so a client built
/// without a user-agent override never fails on its headers.
pub proof fn law_default_user_agent_is_valid()
    ensures
        valid_header_value(DEFAULT_USER_AGENT@),
{
    reveal_strlit(
        "Mozilla/5.0 (X11; Linux x86_64) AppleWebKit/537.36 (KHTML, like Gecko) Chrome/120.0.0.0 Safari/537.36",
    );
}

/// Suffixing the default user agent (the safe way to identify an
/// integration) keeps it a valid header value whenever the suffix is one.
pub proof fn law_suffixed_default_user_agent_is_valid(suffix: Seq<char>)
    requires
        valid_header_value(suffix),
    ensures
        valid_header_value(DEFAULT_USER_AGENT@ + suffix),
{
    law_default_user_agent_is_valid();
    let s = DEFAULT_USER_AGENT@ + suffix;
    assert forall|i: int| 0 <= i < s.len() implies header_char_ok(#[trigger] s[i]) by {
        if i < DEFAULT_USER_AGENT@.len() {
            assert(s[i] == DEFAULT_USER_AGENT@[i]);
        } else {
            assert(s[i] == suffix[i - DEFAULT_USER_AGENT@.len()]);
        }
    }
}

/// A builder without overrides builds what [`PixieChessClient::new`]
/// builds: the default base URL and the default user agent.
pub proof fn law_builder_defaults_match_new(b: PixieChessClientBuilder)
    requires
        b.base_url_setting() is None,
        b.user_agent_setting() is None,
    ensures
        b.effective_base_url() == DEFAULT_BASE_URL@,
        effective_user_agent(b.user_agent_setting()) == DEFAULT_USER_AGENT@,
{
}

} // verus!
