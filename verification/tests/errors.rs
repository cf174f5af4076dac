use pixiechess_client::http::error_for_status;
use pixiechess_client::ClientError;

#[test]
fn not_found_display() {
    let err = ClientError::NotFound("no such user".into());
    let s = err.message();
    assert!(s.contains("not found"));
    assert!(s.contains("no such user"));
}

#[test]
fn api_display() {
    let err = ClientError::Api {
        status: 500,
        message: "boom".into(),
    };
    assert_eq!(err.message(), "HTTP 500: boom");
}

#[test]
fn not_found_message_is_exact() {
    let err = ClientError::NotFound("gone".into());
    assert_eq!(err.message(), "not found: gone");
}

#[test]
fn api_message_for_config_error_status_zero() {
    let err = ClientError::Api { status: 0, message: "bad".into() };
    assert_eq!(err.message(), "HTTP 0: bad");
}

#[test]
fn api_message_for_largest_status() {
    let err = ClientError::Api { status: 65535, message: String::new() };
    assert_eq!(err.message(), "HTTP 65535: ");
}

#[test]
fn decode_error_message_comes_from_serde_json() {
    let inner = serde_json::from_str::<serde_json::Value>("not json {{{").unwrap_err();
    let expected = inner.to_string();
    let err = ClientError::Decode(inner);
    assert_eq!(err.message(), expected);
}

#[test]
fn status_404_maps_to_not_found() {
    match error_for_status(404, "not here".into()) {
        Some(ClientError::NotFound(body)) => assert!(body.contains("not here")),
        _ => panic!("expected NotFound"),
    }
}

#[test]
fn status_500_maps_to_api_error() {
    match error_for_status(500, "boom".into()) {
        Some(ClientError::Api { status, message }) => {
            assert_eq!(status, 500);
            assert!(message.contains("boom"));
        }
        _ => panic!("expected Api"),
    }
}

#[test]
fn other_client_errors_map_to_api_error() {
    for code in [400u16, 401, 403, 405, 429, 199, 300, 302, 0] {
        match error_for_status(code, "x".into()) {
            Some(ClientError::Api { status, message }) => {
                assert_eq!(status, code);
                assert_eq!(message, "x");
            }
            _ => panic!("expected Api for {code}"),
        }
    }
}

#[test]
fn success_statuses_are_no_error() {
    for code in [200u16, 201, 202, 204, 299] {
        assert!(error_for_status(code, "ok".into()).is_none());
    }
}
