use pixiechess_client::text::{bool_string, i32_text, parse_u32, u32_text, u64_text};

#[test]
fn decimal_texts_match_to_string() {
    for n in [0u64, 7, 10, 99, 100, 12345, u32::MAX as u64, u64::MAX] {
        assert_eq!(u64_text(n), n.to_string());
    }
    for n in [0u32, 1, 15, 4294967295] {
        assert_eq!(u32_text(n), n.to_string());
    }
    for n in [0i32, -1, 300, -300, i32::MAX, i32::MIN] {
        assert_eq!(i32_text(n), n.to_string());
    }
}

#[test]
fn bool_texts() {
    assert_eq!(bool_string(true), "true");
    assert_eq!(bool_string(false), "false");
}

#[test]
fn parse_u32_follows_from_str() {
    for s in ["0", "15", "+7", "0004294967295", "4294967295", "4294967296", "", "+", "-1", " 1", "1a", "++1"] {
        assert_eq!(parse_u32(s), s.parse::<u32>().ok(), "{s:?}");
    }
}
