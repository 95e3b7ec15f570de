use ipgeolocation::transport::{check_outgoing_headers, read_response_body};
use ipgeolocation::{IpGeolocationError, StrMap};

#[test]
fn oversized_body_is_rejected() {
    let body = read_response_body(b"abcdef".to_vec(), 5).unwrap_err();
    assert_eq!(
        body.to_string(),
        "response body exceeded the maximum allowed size"
    );
}

#[test]
fn invalid_utf8_body_is_rejected() {
    let error = read_response_body(vec![0xff], 4).unwrap_err();
    assert!(matches!(error, IpGeolocationError::Serialization { .. }));
    assert_eq!(error.to_string(), "failed to decode response body as UTF-8");
}

#[test]
fn body_at_the_limit_is_decoded() {
    let body = read_response_body("héllo".as_bytes().to_vec(), 6).unwrap();
    assert_eq!(body, "héllo");
}

#[test]
fn invalid_header_name_is_rejected() {
    let mut headers = StrMap::new();
    headers.insert("Bad\nHeader".to_string(), "value".to_string());

    let error = check_outgoing_headers(&headers).unwrap_err();
    assert!(matches!(error, IpGeolocationError::Validation(_)));
    assert_eq!(
        error.to_string(),
        "invalid header name \"Bad\\nHeader\": invalid HTTP header name"
    );
}

#[test]
fn invalid_header_value_is_rejected_after_valid_names() {
    let mut headers = StrMap::new();
    headers.insert("A-Good".to_string(), "fine\tvalue héllo".to_string());
    headers.insert("B-Bad".to_string(), "line\nbreak".to_string());
    headers.insert("C-Bad name".to_string(), "x".to_string());

    let error = check_outgoing_headers(&headers).unwrap_err();
    assert_eq!(
        error.to_string(),
        "invalid header value for \"B-Bad\": failed to parse header value"
    );
}

#[test]
fn accepted_headers_pass_the_check() {
    let mut headers = StrMap::new();
    headers.insert("User-Agent".to_string(), "ipgeolocation-rust-sdk/1.0.0".to_string());
    headers.insert("X-Token_1!".to_string(), "".to_string());
    assert!(check_outgoing_headers(&headers).is_ok());
    assert!(check_outgoing_headers(&StrMap::new()).is_ok());
}
