use pixiechess_client::http::HttpConfig;
use pixiechess_client::{ClientError, PixieChessClient, DEFAULT_BASE_URL, DEFAULT_USER_AGENT};

fn header<'a>(config: &'a HttpConfig, name: &str) -> Option<&'a str> {
    config
        .headers
        .iter()
        .find(|(n, _)| *n == name)
        .map(|(_, v)| v.as_str())
}

#[test]
fn new_constructs_a_client() {
    let _ = PixieChessClient::new().expect("default new() should succeed");
}

#[test]
fn builder_default_constructs_a_client() {
    let _ = PixieChessClient::builder()
        .build()
        .expect("builder.build() should succeed");
}

#[test]
fn builder_uses_overridden_base_url() {
    let _ = PixieChessClient::builder()
        .base_url("http://localhost:1234")
        .build()
        .expect("override base URL should succeed");
}

#[test]
fn builder_rejects_invalid_base_url() {
    let res = PixieChessClient::builder().base_url("not a url").build();
    assert!(res.is_err());
}

#[test]
fn new_client_targets_the_default_base_url() {
    let client = PixieChessClient::new().unwrap();
    assert_eq!(DEFAULT_BASE_URL, "https://api.pixiechess.xyz");
    // The parsed URL is serialized with its root path.
    assert_eq!(client.http.base_url, "https://api.pixiechess.xyz/");
    assert_eq!(header(&client.http, "user-agent"), Some(DEFAULT_USER_AGENT));
}

#[test]
fn builder_override_base_url_is_kept() {
    let client = PixieChessClient::builder()
        .base_url("http://localhost:1234")
        .build()
        .unwrap();
    assert_eq!(client.http.base_url, "http://localhost:1234/");
}

#[test]
fn builder_user_agent_replaces_default() {
    let ua = format!("{DEFAULT_USER_AGENT} my-app/1.0");
    let client = PixieChessClient::builder().user_agent(&ua).build().unwrap();
    assert_eq!(header(&client.http, "user-agent"), Some(ua.as_str()));
}

#[test]
fn builder_rejects_user_agent_with_newline_before_url() {
    let res = PixieChessClient::builder()
        .base_url("not a url")
        .user_agent("bad\nua")
        .build();
    match res {
        Err(ClientError::Api { status, message }) => {
            assert_eq!(status, 0);
            assert_eq!(message, "invalid User-Agent: failed to parse header value");
        }
        _ => panic!("expected a configuration error"),
    }
}

#[test]
fn builder_invalid_base_url_reports_parse_error() {
    let res = PixieChessClient::builder().base_url("not a url").build();
    match res {
        Err(ClientError::Api { status, message }) => {
            assert_eq!(status, 0);
            assert_eq!(message, "relative URL without a base");
        }
        _ => panic!("expected a configuration error"),
    }
}

#[test]
fn default_builder_equals_new() {
    let a = PixieChessClient::new().unwrap();
    let b = pixiechess_client::PixieChessClientBuilder::default().build().unwrap();
    assert_eq!(a.http.base_url, b.http.base_url);
    assert_eq!(a.http.headers, b.http.headers);
}

#[test]
fn client_resources_build_requests() {
    let client = PixieChessClient::new().unwrap();
    assert_eq!(client.users().get("alice").request().path, "/user/alice");
    assert_eq!(client.games().get("g1").request().path, "/game/g1");
    assert_eq!(client.leaderboard().get().request().path, "/leaderboard");
    assert_eq!(client.pieces().get("0xabc").request().path, "/pieces/0xabc");
    assert_eq!(client.auctions().active().request().path, "/auctions/active");
    assert_eq!(client.tournaments().details("t-1").request().path, "/tournament/details/t-1");
    assert_eq!(client.misc().config().request().path, "/config/public");
    assert_eq!(client.ranks().masters().request().path, "/ranks/masters");
}
