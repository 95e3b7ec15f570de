use ipgeolocation::text::{
    contains_line_break, eq_ignore_ascii_case, is_blank_str, parse_u32, str_less, trim_str,
};
use ipgeolocation::transport::{add_header_value, transport_failure};
use ipgeolocation::{ApiError, IpGeolocationError, StrMap, ValidationError};

#[test]
fn trimming_follows_unicode_whitespace() {
    assert_eq!(trim_str("  a b \t"), "a b");
    assert_eq!(trim_str("\u{3000}\u{a0}x\u{2029}"), "x");
    assert_eq!(trim_str("\u{200b}x"), "\u{200b}x");
    assert_eq!(trim_str(" \n "), "");
    assert!(is_blank_str("\u{85}\u{1680} "));
    assert!(!is_blank_str(" . "));
}

#[test]
fn line_breaks_are_found() {
    assert!(contains_line_break("a\rb"));
    assert!(contains_line_break("\n"));
    assert!(!contains_line_break("a\tb"));
}

#[test]
fn ascii_case_is_ignored_only_for_ascii() {
    assert!(eq_ignore_ascii_case("User-Agent", "uSER-aGENT"));
    assert!(!eq_ignore_ascii_case("É", "é"));
    assert!(!eq_ignore_ascii_case("a", "ab"));
}

#[test]
fn numbers_parse_as_u32_does() {
    assert_eq!(parse_u32("42"), Some(42));
    assert_eq!(parse_u32("+7"), Some(7));
    assert_eq!(parse_u32("007"), Some(7));
    assert_eq!(parse_u32("4294967295"), Some(u32::MAX));
    assert_eq!(parse_u32("4294967296"), None);
    assert_eq!(parse_u32("99999999999999999999"), None);
    assert_eq!(parse_u32("-1"), None);
    assert_eq!(parse_u32("+"), None);
    assert_eq!(parse_u32(""), None);
    assert_eq!(parse_u32(" 1"), None);
    assert_eq!(parse_u32("1x"), None);
    for text in ["0", "12", "+3", "0004294967295", "4294967296", "x", "++1"] {
        assert_eq!(parse_u32(text), text.parse::<u32>().ok(), "{text}");
    }
}

#[test]
fn string_order_is_code_point_order() {
    assert!(str_less("a", "b"));
    assert!(str_less("", "a"));
    assert!(str_less("ab", "b"));
    assert!(str_less("Z", "a"));
    assert!(!str_less("b", "ab"));
    assert!(!str_less("a", "a"));
}

#[test]
fn error_texts() {
    assert_eq!(ApiError::new(404, "Not Found".to_string()).to_string(), "Not Found (status 404)");
    let api = ApiError::new(7, "m".to_string());
    assert_eq!(api.status_code(), 7);
    assert_eq!(api.message(), "m");
    assert_eq!(ValidationError::new("bad".to_string()).message(), "bad");
    assert_eq!(IpGeolocationError::ClientClosed.to_string(), "client is closed");
    assert_eq!(
        IpGeolocationError::request_timeout("slow".to_string()).to_string(),
        "slow"
    );
    let serialization =
        IpGeolocationError::serialization("broken".to_string(), "cause".to_string());
    assert_eq!(serialization.to_string(), "broken");
    assert_eq!(serialization.source_text(), Some("cause".to_string()));
    assert_eq!(
        IpGeolocationError::Api(ApiError::new(500, "x".to_string())).source_text(),
        Some("x (status 500)".to_string())
    );
    assert_eq!(IpGeolocationError::transport_message("t".to_string()).source_text(), None);
    assert_eq!(
        IpGeolocationError::from(ValidationError::new("v".to_string())).to_string(),
        "v"
    );
}

#[test]
fn transport_failures_are_classified() {
    let connect = transport_failure(true, true, "ctx".to_string(), "s".to_string());
    assert_eq!(connect.to_string(), "connect timeout exceeded");
    assert!(matches!(connect, IpGeolocationError::RequestTimeout(_)));
    let timeout = transport_failure(true, false, "request timeout exceeded".to_string(), "s".to_string());
    assert_eq!(timeout.to_string(), "request timeout exceeded");
    let other = transport_failure(false, true, "ctx".to_string(), "s".to_string());
    assert!(matches!(other, IpGeolocationError::Transport { .. }));
    assert_eq!(other.source_text(), Some("s".to_string()));
}

#[test]
fn header_values_accumulate_under_their_name() {
    let mut headers = StrMap::new();
    add_header_value(&mut headers, "set-cookie".to_string(), Some("a".to_string()));
    add_header_value(&mut headers, "x-bin".to_string(), None);
    add_header_value(&mut headers, "set-cookie".to_string(), Some("b".to_string()));
    assert_eq!(headers.get("set-cookie").unwrap(), &vec!["a".to_string(), "b".to_string()]);
    assert_eq!(headers.get("x-bin").unwrap(), &Vec::<String>::new());
}
