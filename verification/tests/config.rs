use ipgeolocation::IpGeolocationClientConfig;

#[test]
fn debug_redacts_api_key() {
    let config = IpGeolocationClientConfig {
        api_key: Some("secret".to_string()),
        ..IpGeolocationClientConfig::default()
    };

    let debug_output = config.redacted_debug();
    assert!(debug_output.contains("[REDACTED]"));
    assert!(!debug_output.contains("secret"));
}

#[test]
fn request_origin_rejects_paths() {
    let config = IpGeolocationClientConfig {
        request_origin: Some("https://app.example.com/path".to_string()),
        ..IpGeolocationClientConfig::default()
    };

    let error = config.validate().unwrap_err();
    assert_eq!(error.message(), "request_origin must not include a path");
}

#[test]
fn invalid_base_url_is_rejected() {
    let config = IpGeolocationClientConfig {
        base_url: "https:///broken".to_string(),
        ..IpGeolocationClientConfig::default()
    };

    let error = config.validate().unwrap_err();
    assert_eq!(error.message(), "base_url must include a valid host");
}

#[test]
fn invalid_request_origin_is_rejected() {
    let config = IpGeolocationClientConfig {
        request_origin: Some("https:///broken".to_string()),
        ..IpGeolocationClientConfig::default()
    };

    let error = config.validate().unwrap_err();
    assert_eq!(error.message(), "request_origin must include a valid host");
}

#[test]
fn default_config_is_valid_and_has_documented_values() {
    let config = IpGeolocationClientConfig::default();
    assert!(config.validate().is_ok());
    assert_eq!(config.base_url, "https://api.ipgeolocation.io");
    assert_eq!(config.connect_timeout_ms, 10_000);
    assert_eq!(config.request_timeout_ms, 30_000);
    assert_eq!(config.api_key, None);
    assert_eq!(config.request_origin, None);
}

#[test]
fn debug_text_has_the_derived_layout() {
    let config = IpGeolocationClientConfig {
        api_key: Some("secret".to_string()),
        request_origin: Some("https://app.example.com".to_string()),
        ..IpGeolocationClientConfig::default()
    };
    assert_eq!(
        config.redacted_debug(),
        "IpGeolocationClientConfig { api_key: \"[REDACTED]\", request_origin: Some(\"https://app.example.com\"), base_url: \"https://api.ipgeolocation.io\", connect_timeout_ms: 10000, request_timeout_ms: 30000 }"
    );
    let unset = IpGeolocationClientConfig::default();
    assert!(unset.redacted_debug().contains("api_key: \"[UNSET]\""));
    assert!(unset.redacted_debug().contains("request_origin: None"));
}

#[test]
fn debug_text_is_the_same_for_any_api_key() {
    let first = IpGeolocationClientConfig {
        api_key: Some("first-key".to_string()),
        ..IpGeolocationClientConfig::default()
    };
    let second = IpGeolocationClientConfig {
        api_key: Some("another".to_string()),
        ..IpGeolocationClientConfig::default()
    };
    assert_eq!(first.redacted_debug(), second.redacted_debug());
}

fn validation_message(config: IpGeolocationClientConfig) -> String {
    config.validate().unwrap_err().message().to_string()
}

#[test]
fn config_errors_name_the_broken_rule() {
    let base = IpGeolocationClientConfig::default();
    assert_eq!(
        validation_message(IpGeolocationClientConfig { api_key: Some("  ".to_string()), ..base.clone() }),
        "api_key must not be blank"
    );
    assert_eq!(
        validation_message(IpGeolocationClientConfig { api_key: Some("a\nb".to_string()), ..base.clone() }),
        "api_key must not contain CR or LF"
    );
    assert_eq!(
        validation_message(IpGeolocationClientConfig { request_origin: Some("\t".to_string()), ..base.clone() }),
        "request_origin must not be blank"
    );
    assert_eq!(
        validation_message(IpGeolocationClientConfig {
            request_origin: Some("https://a.example.com\r".to_string()),
            ..base.clone()
        }),
        "request_origin must not contain CR or LF"
    );
    assert_eq!(
        validation_message(IpGeolocationClientConfig {
            request_origin: Some("https://user:pw@app.example.com".to_string()),
            ..base.clone()
        }),
        "request_origin must not include userinfo"
    );
    assert_eq!(
        validation_message(IpGeolocationClientConfig {
            request_origin: Some("https://app.example.com/?a=1".to_string()),
            ..base.clone()
        }),
        "request_origin must not include params, query, or fragment"
    );
    assert_eq!(
        validation_message(IpGeolocationClientConfig { base_url: " ".to_string(), ..base.clone() }),
        "base_url must not be blank"
    );
    assert_eq!(
        validation_message(IpGeolocationClientConfig { base_url: "ftp://example.com".to_string(), ..base.clone() }),
        "base_url must be an absolute http or https URL"
    );
    assert_eq!(
        validation_message(IpGeolocationClientConfig { base_url: "not a url".to_string(), ..base.clone() }),
        "base_url must be an absolute http or https URL"
    );
    assert_eq!(
        validation_message(IpGeolocationClientConfig { base_url: "http://".to_string(), ..base.clone() }),
        "base_url must include a valid host"
    );
    assert_eq!(
        validation_message(IpGeolocationClientConfig { base_url: "https://x.example.com#top".to_string(), ..base.clone() }),
        "base_url must not include params, query, or fragment"
    );
    assert_eq!(
        validation_message(IpGeolocationClientConfig { base_url: "https://u@x.example.com".to_string(), ..base.clone() }),
        "base_url must not include userinfo"
    );
    assert_eq!(
        validation_message(IpGeolocationClientConfig { connect_timeout_ms: 0, ..base.clone() }),
        "connect_timeout_ms must be greater than zero"
    );
    assert_eq!(
        validation_message(IpGeolocationClientConfig { request_timeout_ms: 0, ..base.clone() }),
        "request_timeout_ms must be greater than zero"
    );
}

#[test]
fn accepted_origins_and_base_urls() {
    let config = IpGeolocationClientConfig {
        api_key: Some(" key ".to_string()),
        request_origin: Some(" https://app.example.com ".to_string()),
        base_url: "http://localhost:8080/api/".to_string(),
        ..IpGeolocationClientConfig::default()
    };
    assert!(config.validate().is_ok());
}
