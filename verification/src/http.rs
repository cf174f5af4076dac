//! The client's HTTP configuration and the decisions around each request:
//! default headers, base URL, request URLs, and what a response status
//! means.
//!
//! The network transfer itself lies outside the library; it sends what a
//! [`Request`] describes with the headers of an [`HttpConfig`].

use vstd::prelude::*;

use crate::error::ClientError;

verus! {

/// Default base URL of the `PixieChess` API.
pub const DEFAULT_BASE_URL: &'static str = "https://api.pixiechess.xyz";

/// Default `User-Agent` sent on every outbound request.
///
/// The upstream WAF answers non-browser-shaped user agents with an empty
/// `202` challenge, so the default mirrors a recent Chrome/Linux build.
/// To identify an integration, suffix this constant rather than replace it.
pub const DEFAULT_USER_AGENT: &'static str = "Mozilla/5.0 (X11; Linux x86_64) AppleWebKit/537.36 (KHTML, like Gecko) Chrome/120.0.0.0 Safari/537.36";

/// The text of name/value pairs (query parameters or headers).
pub open spec fn pairs_text(pairs: Seq<(&'static str, String)>) -> Seq<(Seq<char>, Seq<char>)> {
    pairs.map_values(|p: (&'static str, String)| (p.0@, p.1@))
}

/// A GET request that an endpoint builder describes: the path (joined onto
/// the base URL) and the query parameters, in order.
pub struct Request {
    pub path: String,
    pub query: Vec<(&'static str, String)>,
}

/// Whether a character may stand in an HTTP header value: any character
/// but the ASCII control characters, save horizontal tab.
pub open spec fn header_char_ok(c: char) -> bool {
    ((c as u32) >= 32 && (c as u32) != 127) || c == '\t'
}

/// Whether `s` is accepted as an HTTP header value.
pub open spec fn valid_header_value(s: Seq<char>) -> bool {
    forall|i: int| 0 <= i < s.len() ==> header_char_ok(#[trigger] s[i])
}

/// The headers attached to every request, in order, for user agent `ua`.
pub open spec fn default_header_list(ua: Seq<char>) -> Seq<(Seq<char>, Seq<char>)> {
    seq![
        ("origin"@, "https://www.pixiechess.xyz"@),
        ("referer"@, "https://www.pixiechess.xyz/"@),
        ("user-agent"@, ua),
        ("accept"@, "*/*"@),
        ("accept-language"@, "en-US,en;q=0.8"@),
        ("sec-fetch-dest"@, "empty"@),
        ("sec-fetch-mode"@, "cors"@),
        ("sec-fetch-site"@, "same-site"@),
    ]
}

/// The message of the error for a rejected `User-Agent`.
pub open spec fn invalid_user_agent_message() -> Seq<char> {
    "invalid User-Agent: failed to parse header value"@
}

/// Whether `r` is the configuration error (status `0`) with text `m`.
pub open spec fn is_config_error<T>(r: Result<T, ClientError>, m: Seq<char>) -> bool {
    r matches Err(ClientError::Api { status, message }) && status == 0 && message@ == m
}

/// Whether `s` is accepted as an HTTP header value (`HeaderValue::from_str`
/// accepts it): no ASCII control character but tab.
pub fn is_valid_header_value(s: &str) -> (b: bool)
    ensures
        b == valid_header_value(s@),
        b == (forall|i: int|
            0 <= i < s@.len() ==> ((s@[i] as u32) >= 32 && (s@[i] as u32) != 127) || s@[i]
                == '\t'),
{
    let len = s.unicode_len();
    let mut i: usize = 0;
    while i < len
        invariant
            i <= len,
            len == s@.len(),
            forall|j: int| 0 <= j < i ==> header_char_ok(#[trigger] s@[j]),
        decreases len - i,
    {
        let c = s.get_char(i);
        let code = c as u32;
        if !((code >= 32 && code != 127) || code == 9) {
            assert(!header_char_ok(s@[i as int]));
            return false;
        }
        i = i + 1;
    }
    true
}

/// The default request headers for user agent `user_agent`.
///
/// The API rejects requests without same-site `Origin` / `Referer`; the
/// other headers mirror what a browser sends.
pub fn default_headers(user_agent: &str) -> (r: Result<Vec<(&'static str, String)>, ClientError>)
    ensures
        valid_header_value(user_agent@) ==> r is Ok && pairs_text(r->Ok_0@) == default_header_list(
            user_agent@,
        ),
        !valid_header_value(user_agent@) ==> is_config_error(r, invalid_user_agent_message()),
        (r is Ok) == (forall|i: int|
            0 <= i < user_agent@.len() ==> ((user_agent@[i] as u32) >= 32 && (user_agent@[i] as u32)
                != 127) || user_agent@[i] == '\t'),
{
    if !is_valid_header_value(user_agent) {
        return Err(
            ClientError::Api {
                status: 0,
                message: String::from_str("invalid User-Agent: failed to parse header value"),
            },
        );
    }
    let mut h: Vec<(&'static str, String)> = Vec::new();
    h.push(("origin", String::from_str("https://www.pixiechess.xyz")));
    h.push(("referer", String::from_str("https://www.pixiechess.xyz/")));
    h.push(("user-agent", String::from_str(user_agent)));
    h.push(("accept", String::from_str("*/*")));
    h.push(("accept-language", String::from_str("en-US,en;q=0.8")));
    h.push(("sec-fetch-dest", String::from_str("empty")));
    h.push(("sec-fetch-mode", String::from_str("cors")));
    h.push(("sec-fetch-site", String::from_str("same-site")));
    assert(pairs_text(h@) =~= default_header_list(user_agent@));
    Ok(h)
}

/// The serialization of `input` parsed as an absolute URL, or the text of
/// the parse error.
pub uninterp spec fn url_parsed(input: Seq<char>) -> Result<Seq<char>, Seq<char>>;

/// The serialization of `path` resolved against the URL serialized as
/// `base`, or the text of the error.
pub uninterp spec fn url_joined(base: Seq<char>, path: Seq<char>) -> Result<Seq<char>, Seq<char>>;

/// Whether `r` (URL text or error text) is what the name `named` holds.
pub open spec fn same_outcome(r: Result<String, String>, named: Result<Seq<char>, Seq<char>>) -> bool {
    match r {
        Ok(u) => named == Ok::<Seq<char>, Seq<char>>(u@),
        Err(m) => named == Err::<Seq<char>, Seq<char>>(m@),
    }
}

/// Calls `url::Url::parse`. Claims that the outcome (the URL's
/// serialization, or the `Display` text of the `ParseError`) depends on
/// `input` alone; what it is is named, not stated.
#[verifier::external_body]
fn parse_url(input: &str) -> (r: Result<String, String>)
    ensures
        same_outcome(r, url_parsed(input@)),
{
    match url::Url::parse(input) {
        Ok(u) => Ok(String::from(u)),
        Err(e) => Err(e.to_string()),
    }
}

/// Calls `url::Url::join` on the URL whose serialization is `base` (read
/// back into a `Url`, which the url crate's serialization round-trips).
/// Claims that the outcome (the joined URL's serialization, or the
/// `Display` text of the `ParseError`) depends on `base` and `path` alone;
/// what it is is named, not stated.
#[verifier::external_body]
fn join_url(base: &str, path: &str) -> (r: Result<String, String>)
    ensures
        same_outcome(r, url_joined(base@, path@)),
{
    match url::Url::parse(base) {
        Ok(b) => match b.join(path) {
            Ok(u) => Ok(String::from(u)),
            Err(e) => Err(e.to_string()),
        },
        Err(e) => Err(e.to_string()),
    }
}

/// The outcome of a URL operation as the client reports it: the URL
/// text, or a configuration error (status `0`) that carries the url
/// crate's message.
pub fn url_outcome(r: Result<String, String>) -> (out: Result<String, ClientError>)
    ensures
        match r {
            Ok(u) => out matches Ok(s) && s@ == u@,
            Err(m) => is_config_error(out, m@),
        },
{
    match r {
        Ok(u) => Ok(u),
        Err(m) => Err(ClientError::Api { status: 0, message: m }),
    }
}

/// The user agent a client sends: the one given, or the default.
pub open spec fn effective_user_agent(user_agent: Option<Seq<char>>) -> Seq<char> {
    match user_agent {
        Some(u) => u,
        None => DEFAULT_USER_AGENT@,
    }
}

/// The HTTP configuration of a client: the parsed base URL (serialized)
/// and the headers attached to every request.
pub struct HttpConfig {
    pub base_url: String,
    pub headers: Vec<(&'static str, String)>,
}

/// What [`HttpConfig::new`] gives for base URL `base_url` and user agent
/// `ua`: first the user agent is checked, then the base URL is parsed; a
/// failure of either is a configuration error (status `0`).
pub open spec fn config_outcome(r: Result<HttpConfig, ClientError>, base_url: Seq<char>, ua: Seq<char>) -> bool {
    if !valid_header_value(ua) {
        is_config_error(r, invalid_user_agent_message())
    } else {
        match url_parsed(base_url) {
            Ok(u) => r matches Ok(c) && c.base_url@ == u && pairs_text(c.headers@)
                == default_header_list(ua),
            Err(m) => is_config_error(r, m),
        }
    }
}

impl HttpConfig {
    /// The configuration for `base_url`, with the default browser-like
    /// headers; `user_agent` overrides [`DEFAULT_USER_AGENT`] when given.
    pub fn new(base_url: &str, user_agent: Option<&str>) -> (r: Result<HttpConfig, ClientError>)
        ensures
            config_outcome(
                r,
                base_url@,
                effective_user_agent(
                    match user_agent {
                        Some(u) => Some(u@),
                        None => None,
                    },
                ),
            ),
    {
        let ua: &str = match user_agent {
            Some(u) => u,
            None => DEFAULT_USER_AGENT,
        };
        let headers = match default_headers(ua) {
            Ok(h) => h,
            Err(e) => return Err(e),
        };
        match url_outcome(parse_url(base_url)) {
            Ok(u) => Ok(HttpConfig { base_url: u, headers }),
            Err(e) => Err(e),
        }
    }

    /// The URL of `path` on this client's base URL. `Url::join` treats a
    /// leading slash as a replacement of the base's path.
    pub fn build_url(&self, path: &str) -> (r: Result<String, ClientError>)
        ensures
            match url_joined(self.base_url@, path@) {
                Ok(u) => r matches Ok(s) && s@ == u,
                Err(m) => is_config_error(r, m),
            },
    {
        url_outcome(join_url(self.base_url.as_str(), path))
    }
}

/// How a response status is handled.
pub enum StatusClass {
    /// `404`: the resource does not exist.
    NotFound,
    /// Any other status outside `200..300`.
    Failure,
    /// `200..300`: the body is decoded.
    Success,
}

/// The class of status `code`.
pub open spec fn status_class(code: u16) -> StatusClass {
    if code == 404 {
        StatusClass::NotFound
    } else if 200 <= code && code < 300 {
        StatusClass::Success
    } else {
        StatusClass::Failure
    }
}

/// The class of status `code`.
pub fn classify_status(code: u16) -> (c: StatusClass)
    ensures
        c == status_class(code),
        (c is Success) == (200 <= code && code < 300),
        (c is NotFound) == (code == 404),
        (c is Failure) == (code != 404 && !(200 <= code && code < 300)),
{
    if code == 404 {
        StatusClass::NotFound
    } else if 200 <= code && code < 300 {
        StatusClass::Success
    } else {
        StatusClass::Failure
    }
}

/// The error for a response with status `code` and body text `body`:
/// `404` is [`ClientError::NotFound`], any other status outside `200..300`
/// is [`ClientError::Api`]; a success is no error.
pub fn error_for_status(code: u16, body: String) -> (r: Option<ClientError>)
    ensures
        (r is None) == (200 <= code && code < 300),
        code != 404 && !(200 <= code && code < 300) ==> r == Some(
            ClientError::Api { status: code, message: body },
        ),
        code == 404 ==> r == Some(ClientError::NotFound(body)),
        status_class(code) is Failure ==> r == Some(
            ClientError::Api { status: code, message: body },
        ),
        status_class(code) is Success ==> r is None,
{
    match classify_status(code) {
        StatusClass::NotFound => Some(ClientError::NotFound(body)),
        StatusClass::Failure => Some(ClientError::Api { status: code, message: body }),
        StatusClass::Success => None,
    }
}

/// A response status is a success exactly in `200..300`, not found
/// exactly at `404`, and a failure at every other code (`1xx`, `3xx`,
/// other `4xx`, every `5xx`).
pub proof fn law_status_classes(code: u16)
    ensures
        (status_class(code) is Success) == (200 <= code && code < 300),
        (status_class(code) is NotFound) == (code == 404),
        (status_class(code) is Failure) == (code != 404 && !(200 <= code && code < 300)),
{
}

/// A character may stand in a header value exactly when it is not an
/// ASCII control character, tab excepted: every visible ASCII character
/// (`:` and `/` included), space, tab and every non-ASCII character is
/// accepted; `0..=31` but tab, and `127`, are rejected.
pub proof fn law_header_characters(c: char)
    ensures
        header_char_ok(c) == (((c as u32) >= 32 && (c as u32) != 127) || c == '\t'),
        32 <= (c as u32) <= 126 ==> header_char_ok(c),
        (c as u32) >= 128 ==> header_char_ok(c),
{
}

/// A text is a valid header value exactly when none of its characters is
/// an ASCII control character other than tab; in particular every user
/// agent of visible ASCII characters and spaces is accepted.
pub proof fn law_header_values(s: Seq<char>)
    ensures
        valid_header_value(s) == (forall|i: int|
            0 <= i < s.len() ==> ((s[i] as u32) >= 32 && (s[i] as u32) != 127) || s[i] == '\t'),
        (forall|i: int| 0 <= i < s.len() ==> 32 <= (#[trigger] s[i] as u32) <= 126) ==> valid_header_value(s),
{
    assert((forall|i: int| 0 <= i < s.len() ==> 32 <= (#[trigger] s[i] as u32) <= 126) ==> (forall|i: int|
        0 <= i < s.len() ==> header_char_ok(#[trigger] s[i])));
}

/// Every request carries exactly eight default headers: the same-site
/// `Origin` and `Referer` of `www.pixiechess.xyz` that the API requires,
/// the user agent given, unchanged, and the browser's `Accept`,
/// `Accept-Language` and `sec-fetch-*` headers.
pub proof fn law_default_header_list(ua: Seq<char>)
    ensures
        default_header_list(ua).len() == 8,
        default_header_list(ua)[0] == ("origin"@, "https://www.pixiechess.xyz"@),
        default_header_list(ua)[1] == ("referer"@, "https://www.pixiechess.xyz/"@),
        default_header_list(ua)[2] == ("user-agent"@, ua),
        default_header_list(ua)[3] == ("accept"@, "*/*"@),
        default_header_list(ua)[4] == ("accept-language"@, "en-US,en;q=0.8"@),
        default_header_list(ua)[5] == ("sec-fetch-dest"@, "empty"@),
        default_header_list(ua)[6] == ("sec-fetch-mode"@, "cors"@),
        default_header_list(ua)[7] == ("sec-fetch-site"@, "same-site"@),
{
}

} // verus!
