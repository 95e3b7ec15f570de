use ipgeolocation::{BulkLookupIpGeolocationRequest, LookupIpGeolocationRequest};

#[test]
fn bulk_lookup_preserves_duplicates() {
    let request = BulkLookupIpGeolocationRequest {
        ips: vec![
            "8.8.8.8".to_string(),
            "8.8.8.8".to_string(),
            "ipgeolocation.io".to_string(),
        ],
        ..BulkLookupIpGeolocationRequest::default()
    };

    assert!(request.validate().is_ok());
    assert_eq!(
        request.ips,
        vec![
            "8.8.8.8".to_string(),
            "8.8.8.8".to_string(),
            "ipgeolocation.io".to_string()
        ]
    );
}

#[test]
fn single_lookup_rejects_blank_header_names() {
    let mut request = LookupIpGeolocationRequest::default();
    request
        .headers
        .insert("   ".to_string(), "value".to_string());

    let error = request.validate().unwrap_err();
    assert_eq!(error.message(), "headers must not contain blank names");
}

fn lookup_error(request: LookupIpGeolocationRequest) -> String {
    request.validate().unwrap_err().message().to_string()
}

#[test]
fn lookup_errors_name_the_broken_rule() {
    let base = LookupIpGeolocationRequest::default();
    assert!(base.validate().is_ok());
    assert_eq!(
        lookup_error(LookupIpGeolocationRequest { ip: Some(" ".to_string()), ..base.clone() }),
        "ip must not be blank"
    );
    assert_eq!(
        lookup_error(LookupIpGeolocationRequest { ip: Some("8.8.8.8\n".to_string()), ..base.clone() }),
        "ip must not contain CR or LF"
    );
    assert_eq!(
        lookup_error(LookupIpGeolocationRequest { lang: Some("  ".to_string()), ..base.clone() }),
        "lang must not be blank"
    );
    assert_eq!(
        lookup_error(LookupIpGeolocationRequest { lang: Some("xx".to_string()), ..base.clone() }),
        "lang must be one of: en, de, ru, ja, fr, cn, es, cs, it, ko, fa, pt"
    );
    assert_eq!(
        lookup_error(LookupIpGeolocationRequest {
            include_modules: vec!["security".to_string(), " ".to_string()],
            ..base.clone()
        }),
        "\x69nclude must not contain blank values"
    );
    assert_eq!(
        lookup_error(LookupIpGeolocationRequest { fields: vec!["".to_string()], ..base.clone() }),
        "fields must not contain blank values"
    );
    assert_eq!(
        lookup_error(LookupIpGeolocationRequest { excludes: vec!["\t".to_string()], ..base.clone() }),
        "excludes must not contain blank values"
    );
    assert_eq!(
        lookup_error(LookupIpGeolocationRequest { user_agent: Some("".to_string()), ..base.clone() }),
        "user_agent must not be blank"
    );
    let mut blank_value = base.clone();
    blank_value.headers.insert("X-A".to_string(), " ".to_string());
    assert_eq!(lookup_error(blank_value), "headers must not contain blank values");
    let mut line_break = base.clone();
    line_break.headers.insert("X-A".to_string(), "a\rb".to_string());
    assert_eq!(lookup_error(line_break), "headers must not contain CR or LF");
}

#[test]
fn languages_are_matched_after_trimming_and_in_any_case() {
    for lang in ["en", " DE ", "Pt", "ko", "fa", "cn"] {
        let request = LookupIpGeolocationRequest {
            lang: Some(lang.to_string()),
            ..LookupIpGeolocationRequest::default()
        };
        assert!(request.validate().is_ok(), "{lang}");
    }
    let request = LookupIpGeolocationRequest {
        lang: Some("eng".to_string()),
        ..LookupIpGeolocationRequest::default()
    };
    assert!(request.validate().is_err());
}

#[test]
fn bulk_ip_count_limits() {
    let empty = BulkLookupIpGeolocationRequest::default();
    assert_eq!(
        empty.validate().unwrap_err().message(),
        "ips must contain at least one IP address or domain"
    );
    let full = BulkLookupIpGeolocationRequest {
        ips: vec!["1.1.1.1".to_string(); 50_000],
        ..BulkLookupIpGeolocationRequest::default()
    };
    assert!(full.validate().is_ok());
    let over = BulkLookupIpGeolocationRequest {
        ips: vec!["1.1.1.1".to_string(); 50_001],
        ..BulkLookupIpGeolocationRequest::default()
    };
    assert_eq!(
        over.validate().unwrap_err().message(),
        "ips must not contain more than 50000 entries"
    );
    let blank = BulkLookupIpGeolocationRequest {
        ips: vec!["1.1.1.1".to_string(), " ".to_string(), "a\nb".to_string()],
        ..BulkLookupIpGeolocationRequest::default()
    };
    assert_eq!(blank.validate().unwrap_err().message(), "ips must not be blank");
    let broken = BulkLookupIpGeolocationRequest {
        ips: vec!["a\nb".to_string(), " ".to_string()],
        ..BulkLookupIpGeolocationRequest::default()
    };
    assert_eq!(broken.validate().unwrap_err().message(), "ips must not contain CR or LF");
}

#[test]
fn first_broken_rule_wins() {
    let request = LookupIpGeolocationRequest {
        ip: Some(" ".to_string()),
        lang: Some("xx".to_string()),
        ..LookupIpGeolocationRequest::default()
    };
    assert_eq!(request.validate().unwrap_err().message(), "ip must not be blank");
}
