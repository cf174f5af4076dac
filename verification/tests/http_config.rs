use pixiechess_client::http::{
    classify_status, default_headers, is_valid_header_value, url_outcome, HttpConfig, StatusClass,
};
use pixiechess_client::{ClientError, DEFAULT_USER_AGENT};

#[test]
fn invalid_user_agent_returns_api_error() {
    // A newline isn't a valid header value.
    let res = HttpConfig::new("http://localhost:9999", Some("bad\nua"));
    assert!(matches!(res, Err(ClientError::Api { .. })));
}

#[test]
fn default_user_agent_is_in_the_headers() {
    let config = HttpConfig::new("http://localhost:9999", None).unwrap();
    let ua = config
        .headers
        .iter()
        .find(|(n, _)| *n == "user-agent")
        .map(|(_, v)| v.clone());
    assert_eq!(ua.as_deref(), Some(DEFAULT_USER_AGENT));
}

#[test]
fn custom_user_agent_overrides_default_header() {
    let config = HttpConfig::new("http://localhost:9999", Some("my-app/1.0")).unwrap();
    let ua = config
        .headers
        .iter()
        .find(|(n, _)| *n == "user-agent")
        .map(|(_, v)| v.clone());
    assert_eq!(ua.as_deref(), Some("my-app/1.0"));
}

#[test]
fn default_headers_are_the_browser_set_in_order() {
    let h = default_headers("ua/1").unwrap();
    let got: Vec<(&str, &str)> = h.iter().map(|(n, v)| (*n, v.as_str())).collect();
    assert_eq!(
        got,
        vec![
            ("origin", "https://www.pixiechess.xyz"),
            ("referer", "https://www.pixiechess.xyz/"),
            ("user-agent", "ua/1"),
            ("accept", "*/*"),
            ("accept-language", "en-US,en;q=0.8"),
            ("sec-fetch-dest", "empty"),
            ("sec-fetch-mode", "cors"),
            ("sec-fetch-site", "same-site"),
        ]
    );
}

#[test]
fn default_headers_reject_control_characters() {
    for bad in ["a\rb", "\u{0}", "x\u{7f}", "line\n"] {
        match default_headers(bad) {
            Err(ClientError::Api { status, message }) => {
                assert_eq!(status, 0);
                assert_eq!(message, "invalid User-Agent: failed to parse header value");
            }
            _ => panic!("expected rejection of {bad:?}"),
        }
    }
}

#[test]
fn header_values_accept_tab_and_non_ascii() {
    assert!(is_valid_header_value(""));
    assert!(is_valid_header_value("a\tb"));
    assert!(is_valid_header_value("caf\u{e9} ~"));
    assert!(is_valid_header_value(DEFAULT_USER_AGENT));
    assert!(!is_valid_header_value("\u{1f}"));
    assert!(!is_valid_header_value("a\u{7f}"));
}

#[test]
fn invalid_base_url_is_a_config_error() {
    match HttpConfig::new("::nope", None) {
        Err(ClientError::Api { status, .. }) => assert_eq!(status, 0),
        _ => panic!("expected a configuration error"),
    }
}

#[test]
fn build_url_replaces_the_base_path_on_leading_slash() {
    let config = HttpConfig::new("http://localhost:9999/api/v1", None).unwrap();
    assert_eq!(config.build_url("/leaderboard").unwrap(), "http://localhost:9999/leaderboard");
    assert_eq!(config.build_url("users/42").unwrap(), "http://localhost:9999/api/users/42");
}

#[test]
fn build_url_on_default_base() {
    let config = HttpConfig::new("https://api.pixiechess.xyz", None).unwrap();
    assert_eq!(
        config.build_url("/user/match-history/0xabc").unwrap(),
        "https://api.pixiechess.xyz/user/match-history/0xabc"
    );
}

#[test]
fn classify_status_boundaries() {
    assert!(matches!(classify_status(404), StatusClass::NotFound));
    assert!(matches!(classify_status(200), StatusClass::Success));
    assert!(matches!(classify_status(299), StatusClass::Success));
    assert!(matches!(classify_status(300), StatusClass::Failure));
    assert!(matches!(classify_status(199), StatusClass::Failure));
    assert!(matches!(classify_status(500), StatusClass::Failure));
}

#[test]
fn url_outcome_maps_errors_to_config_errors() {
    assert_eq!(url_outcome(Ok("http://x/".into())).unwrap(), "http://x/");
    match url_outcome(Err("relative URL without a base".into())) {
        Err(ClientError::Api { status, message }) => {
            assert_eq!(status, 0);
            assert_eq!(message, "relative URL without a base");
        }
        _ => panic!("expected a configuration error"),
    }
}

#[test]
fn suffixed_default_user_agent_stays_valid() {
    let ua = format!("{DEFAULT_USER_AGENT} my-app/1.0");
    assert!(is_valid_header_value(&ua));
    assert!(default_headers(&ua).is_ok());
}
