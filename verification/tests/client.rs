use std::sync::{Arc, Mutex};

use ipgeolocation::{
    BulkLookupIpGeolocationRequest, BulkLookupItem, ConnectTransport, HttpMethod, HttpRequestData,
    HttpResponseData, HttpTransport, IpGeolocationClient, IpGeolocationClientConfig,
    IpGeolocationError, LookupIpGeolocationRequest, ResponseFormat, StrMap,
};
use serde_json::Value;

#[derive(Clone)]
struct MockTransport {
    requests: Arc<Mutex<Vec<HttpRequestData>>>,
    response: HttpResponseData,
    duration_ms: u64,
}

impl MockTransport {
    fn new(response: HttpResponseData, duration_ms: u64) -> Self {
        Self {
            requests: Arc::new(Mutex::new(Vec::new())),
            response,
            duration_ms,
        }
    }

    fn recorded_requests(&self) -> Vec<HttpRequestData> {
        self.requests.lock().unwrap().clone()
    }
}

impl ConnectTransport for MockTransport {
    fn connect(_connect_timeout_ms: u64) -> Result<Self, IpGeolocationError> {
        Ok(MockTransport::new(HttpResponseData::default(), 0))
    }
}

impl HttpTransport for MockTransport {
    fn send(
        &self,
        request: &HttpRequestData,
    ) -> Result<(HttpResponseData, u64), IpGeolocationError> {
        self.requests.lock().unwrap().push(request.clone());
        Ok((self.response.clone(), self.duration_ms))
    }
}

struct ErrorTransport;

impl HttpTransport for ErrorTransport {
    fn send(
        &self,
        _request: &HttpRequestData,
    ) -> Result<(HttpResponseData, u64), IpGeolocationError> {
        Err(IpGeolocationError::transport_message("transport failed".to_string()))
    }
}

fn keyed_config() -> IpGeolocationClientConfig {
    IpGeolocationClientConfig {
        api_key: Some("secret".to_string()),
        ..IpGeolocationClientConfig::default()
    }
}

fn ok_response(body: &str, headers: StrMap<Vec<String>>) -> HttpResponseData {
    HttpResponseData {
        status_code: 200,
        body: body.to_string(),
        headers,
    }
}

#[test]
fn default_user_agent_contains_version() {
    assert!(IpGeolocationClient::<MockTransport>::default_user_agent()
        .starts_with("ipgeolocation-rust-sdk/"));
}

#[test]
fn invalid_base_url_prevents_client_construction() {
    let error = IpGeolocationClient::<MockTransport>::new(IpGeolocationClientConfig {
        base_url: "https:///broken".to_string(),
        ..IpGeolocationClientConfig::default()
    })
    .err()
    .unwrap();

    assert_eq!(error.to_string(), "base_url must include a valid host");
}

#[test]
fn invalid_request_origin_prevents_client_construction() {
    let error = IpGeolocationClient::<MockTransport>::new(IpGeolocationClientConfig {
        request_origin: Some("https:///broken".to_string()),
        ..IpGeolocationClientConfig::default()
    })
    .err()
    .unwrap();

    assert_eq!(
        error.to_string(),
        "request_origin must include a valid host"
    );
}

#[test]
fn single_lookup_requires_auth() {
    let client = IpGeolocationClient::with_transport(
        IpGeolocationClientConfig::default(),
        MockTransport::new(HttpResponseData::default(), 0),
    )
    .unwrap();

    let error = client
        .lookup_ip_geolocation_body(&LookupIpGeolocationRequest::default())
        .unwrap_err();

    assert_eq!(
        error.to_string(),
        "single lookup requires api_key or request_origin in client config"
    );
}

#[test]
fn closed_client_rejects_requests() {
    let mut client = IpGeolocationClient::with_transport(
        keyed_config(),
        MockTransport::new(HttpResponseData::default(), 0),
    )
    .unwrap();

    client.close();

    let error = client
        .lookup_ip_geolocation_body(&LookupIpGeolocationRequest::default())
        .unwrap_err();

    assert_eq!(error.to_string(), "client is closed");
}

#[test]
fn bulk_lookup_requires_api_key() {
    let client = IpGeolocationClient::with_transport(
        IpGeolocationClientConfig::default(),
        MockTransport::new(HttpResponseData::default(), 0),
    )
    .unwrap();
    let request = BulkLookupIpGeolocationRequest {
        ips: vec!["8.8.8.8".to_string()],
        ..BulkLookupIpGeolocationRequest::default()
    };

    let error = client.bulk_lookup_ip_geolocation_items(&request).err().unwrap();
    assert_eq!(
        error.to_string(),
        "bulk lookup requires api_key in client config"
    );
}

#[test]
fn typed_methods_reject_xml() {
    let client = IpGeolocationClient::with_transport(
        keyed_config(),
        MockTransport::new(HttpResponseData::default(), 0),
    )
    .unwrap();

    let error = client
        .lookup_ip_geolocation_body(&LookupIpGeolocationRequest {
            output: ResponseFormat::Xml,
            ..LookupIpGeolocationRequest::default()
        })
        .unwrap_err();

    assert_eq!(error.to_string(), "typed methods support JSON only");
}

#[test]
fn raw_single_lookup_allows_xml_and_sets_headers() {
    let transport = MockTransport::new(ok_response("<response/>", StrMap::new()), 7);
    let client = IpGeolocationClient::with_transport(
        IpGeolocationClientConfig {
            request_origin: Some("https://app.example.com".to_string()),
            ..IpGeolocationClientConfig::default()
        },
        transport.clone(),
    )
    .unwrap();

    let response = client
        .lookup_ip_geolocation_raw(&LookupIpGeolocationRequest {
            ip: Some(" 8.8.8.8 ".to_string()),
            output: ResponseFormat::Xml,
            ..LookupIpGeolocationRequest::default()
        })
        .unwrap();

    assert_eq!(response.data, "<response/>");
    let requests = transport.recorded_requests();
    let request = requests.first().unwrap();
    assert_eq!(request.headers.get("Accept").unwrap(), "application/xml");
    assert_eq!(
        request.headers.get("Origin").unwrap(),
        "https://app.example.com"
    );
    assert!(request.url.as_str().contains("ip=8.8.8.8"));
}

#[test]
fn raw_bulk_lookup_allows_xml_and_sets_request_headers() {
    let transport = MockTransport::new(ok_response("<response/>", StrMap::new()), 6);
    let client =
        IpGeolocationClient::with_transport(keyed_config(), transport.clone()).unwrap();

    let response = client
        .bulk_lookup_ip_geolocation_raw(&BulkLookupIpGeolocationRequest {
            ips: vec!["8.8.8.8".to_string()],
            output: ResponseFormat::Xml,
            ..BulkLookupIpGeolocationRequest::default()
        })
        .unwrap();

    assert_eq!(response.data, "<response/>");
    let requests = transport.recorded_requests();
    let request = requests.first().unwrap();
    assert_eq!(request.headers.get("Accept").unwrap(), "application/xml");
    assert_eq!(
        request.headers.get("Content-Type").unwrap(),
        "application/json"
    );
}

#[test]
fn lookup_parses_single_response_and_metadata() {
    let mut headers = StrMap::new();
    headers.insert("X-Credits-Charged".to_string(), vec!["2".to_string()]);
    headers.insert("X-Successful-Record".to_string(), vec!["1".to_string()]);

    let body = r#"{"ip":"8.8.8.8","hostname":"dns.google","asn":{"as_number":"AS15169"},"company":{"name":"Google LLC"},"time_zone":{"name":"America/Chicago","current_tz_abbreviation":"CDT"}}"#;
    let transport = MockTransport::new(ok_response(body, headers), 15);
    let client = IpGeolocationClient::with_transport(keyed_config(), transport).unwrap();

    let response = client
        .lookup_ip_geolocation_body(&LookupIpGeolocationRequest::default())
        .unwrap();

    let data: Value = serde_json::from_str(&response.data).unwrap();
    assert_eq!(data["ip"].as_str(), Some("8.8.8.8"));
    assert_eq!(data["hostname"].as_str(), Some("dns.google"));
    assert_eq!(data["asn"]["as_number"].as_str(), Some("AS15169"));
    assert_eq!(data["time_zone"]["current_tz_abbreviation"].as_str(), Some("CDT"));
    assert_eq!(response.metadata.credits_charged, Some(2));
    assert_eq!(response.metadata.successful_records, Some(1));
    assert_eq!(response.metadata.duration_ms, 15);
}

#[test]
fn metadata_ignores_invalid_numbers_and_matches_headers_case_insensitively() {
    let mut headers = StrMap::new();
    headers.insert(
        "x-credits-charged".to_string(),
        vec!["not-a-number".to_string()],
    );
    headers.insert("X-SUCCESSFUL-RECORDS".to_string(), vec!["4".to_string()]);

    let transport = MockTransport::new(ok_response(r#"{"ip":"8.8.8.8"}"#, headers.clone()), 11);
    let client = IpGeolocationClient::with_transport(keyed_config(), transport).unwrap();

    let response = client
        .lookup_ip_geolocation_body(&LookupIpGeolocationRequest::default())
        .unwrap();

    assert_eq!(response.metadata.credits_charged, None);
    assert_eq!(response.metadata.successful_records, Some(4));
    assert_eq!(response.metadata.raw_headers, headers);
}

#[test]
fn bulk_lookup_preserves_duplicates_and_order() {
    let transport = MockTransport::new(ok_response("[]", StrMap::new()), 4);
    let client =
        IpGeolocationClient::with_transport(keyed_config(), transport.clone()).unwrap();

    client
        .bulk_lookup_ip_geolocation_raw(&BulkLookupIpGeolocationRequest {
            ips: vec![
                " 8.8.8.8 ".to_string(),
                "8.8.8.8".to_string(),
                " ipgeolocation.io ".to_string(),
            ],
            ..BulkLookupIpGeolocationRequest::default()
        })
        .unwrap();

    let requests = transport.recorded_requests();
    let request = requests.first().unwrap();
    let body = String::from_utf8(request.body.clone().unwrap()).unwrap();
    assert_eq!(body, r#"{"ips":["8.8.8.8","8.8.8.8","ipgeolocation.io"]}"#);
}

#[test]
fn bulk_lookup_parses_mixed_success_and_error_results() {
    let body = r#"[{"ip":"8.8.8.8","company":{"name":"Google LLC"}},{"error":{"message":"invalid-ip is not a valid IP address."}}]"#;
    let transport = MockTransport::new(ok_response(body, StrMap::new()), 5);
    let client = IpGeolocationClient::with_transport(keyed_config(), transport).unwrap();

    let response = client
        .bulk_lookup_ip_geolocation_items(&BulkLookupIpGeolocationRequest {
            ips: vec!["8.8.8.8".to_string(), "invalid-ip".to_string()],
            ..BulkLookupIpGeolocationRequest::default()
        })
        .ok()
        .unwrap();

    match &response.data[0] {
        BulkLookupItem::Success(value) => {
            assert_eq!(value["company"]["name"].as_str(), Some("Google LLC"))
        }
        BulkLookupItem::Failure(message) => panic!("unexpected failure {message}"),
    }
    match &response.data[1] {
        BulkLookupItem::Failure(message) => {
            assert_eq!(message, "invalid-ip is not a valid IP address.")
        }
        BulkLookupItem::Success(_) => panic!("expected a failure"),
    }
}

#[test]
fn invalid_bulk_json_returns_serialization_error() {
    let client = IpGeolocationClient::with_transport(
        keyed_config(),
        MockTransport::new(ok_response("{not-json}", StrMap::new()), 2),
    )
    .unwrap();

    let error = client
        .bulk_lookup_ip_geolocation_items(&BulkLookupIpGeolocationRequest {
            ips: vec!["8.8.8.8".to_string()],
            ..BulkLookupIpGeolocationRequest::default()
        })
        .err()
        .unwrap();

    assert!(matches!(error, IpGeolocationError::Serialization { .. }));
    assert_eq!(
        error.to_string(),
        "failed to parse bulk lookup response body"
    );
}

#[test]
fn transport_errors_are_returned() {
    let client = IpGeolocationClient::with_transport(keyed_config(), ErrorTransport).unwrap();

    let error = client
        .lookup_ip_geolocation_raw(&LookupIpGeolocationRequest::default())
        .unwrap_err();

    assert_eq!(error.to_string(), "transport failed");
}

#[test]
fn api_errors_use_nested_error_message() {
    let transport = MockTransport::new(
        HttpResponseData {
            status_code: 400,
            body: r#"{"error":{"message":"Invalid IP address"}}"#.to_string(),
            headers: StrMap::new(),
        },
        3,
    );
    let client = IpGeolocationClient::with_transport(keyed_config(), transport).unwrap();

    let error = client
        .lookup_ip_geolocation_raw(&LookupIpGeolocationRequest::default())
        .unwrap_err();

    assert_eq!(error.to_string(), "Invalid IP address (status 400)");
}

#[test]
fn api_errors_fall_back_to_body_and_default_texts() {
    let cases = [
        (429, "", "Too Many Requests (status 429)"),
        (418, "  ", "API request failed (status 418)"),
        (500, " plain failure ", "plain failure (status 500)"),
        (403, r#"{"message":"Forbidden key"}"#, "Forbidden key (status 403)"),
        (404, r#"{"other":1}"#, r#"{"other":1} (status 404)"#),
    ];
    for (status, body, expected) in cases {
        let transport = MockTransport::new(
            HttpResponseData {
                status_code: status,
                body: body.to_string(),
                headers: StrMap::new(),
            },
            1,
        );
        let client = IpGeolocationClient::with_transport(keyed_config(), transport).unwrap();
        let error = client
            .lookup_ip_geolocation_raw(&LookupIpGeolocationRequest::default())
            .unwrap_err();
        assert_eq!(error.to_string(), expected);
        match error {
            IpGeolocationError::Api(api) => assert_eq!(api.status_code(), status),
            _ => panic!("expected an API error"),
        }
    }
}

#[test]
fn lookup_request_carries_query_and_headers() {
    let transport = MockTransport::new(ok_response("{}", StrMap::new()), 1);
    let client = IpGeolocationClient::with_transport(
        IpGeolocationClientConfig {
            api_key: Some(" secret ".to_string()),
            base_url: "https://api.example.com//".to_string(),
            request_timeout_ms: 1234,
            ..IpGeolocationClientConfig::default()
        },
        transport.clone(),
    )
    .unwrap();
    let mut headers = StrMap::new();
    headers.insert(" X-Extra ".to_string(), " value ".to_string());
    headers.insert("user-agent".to_string(), "from-header".to_string());
    client
        .lookup_ip_geolocation_raw(&LookupIpGeolocationRequest {
            ip: Some("1.1.1.1".to_string()),
            lang: Some(" de ".to_string()),
            include_modules: vec!["security".to_string(), " abuse ".to_string()],
            fields: vec!["location.city".to_string()],
            headers,
            ..LookupIpGeolocationRequest::default()
        })
        .unwrap();
    let requests = transport.recorded_requests();
    let sent = requests.first().unwrap();
    assert_eq!(sent.method, HttpMethod::Get);
    assert_eq!(
        sent.url,
        "https://api.example.com/v3/ipgeo?apiKey=secret&ip=1.1.1.1&lang=de&\x69nclude=security%2Cabuse&fields=location.city&output=json"
    );
    assert_eq!(sent.headers.get("X-Extra").unwrap(), "value");
    assert_eq!(sent.headers.get("User-Agent").unwrap(), "from-header");
    assert_eq!(sent.headers.get("Accept").unwrap(), "application/json");
    assert!(sent.headers.get("Origin").is_none());
    assert!(sent.headers.get("Content-Type").is_none());
    assert!(sent.body.is_none());
    assert_eq!(sent.request_timeout_ms, 1234);
}

#[test]
fn request_user_agent_wins_over_header_and_default() {
    let transport = MockTransport::new(ok_response("{}", StrMap::new()), 1);
    let client = IpGeolocationClient::with_transport(keyed_config(), transport.clone()).unwrap();
    let mut headers = StrMap::new();
    headers.insert("User-Agent".to_string(), "from-header".to_string());
    client
        .lookup_ip_geolocation_raw(&LookupIpGeolocationRequest {
            user_agent: Some(" own ".to_string()),
            headers,
            ..LookupIpGeolocationRequest::default()
        })
        .unwrap();
    client
        .lookup_ip_geolocation_raw(&LookupIpGeolocationRequest::default())
        .unwrap();
    let requests = transport.recorded_requests();
    assert_eq!(requests[0].headers.get("User-Agent").unwrap(), "own");
    assert_eq!(
        requests[1].headers.get("User-Agent").unwrap().as_str(),
        IpGeolocationClient::<MockTransport>::default_user_agent()
    );
}

#[test]
fn bulk_request_is_posted_with_api_key() {
    let transport = MockTransport::new(ok_response("[]", StrMap::new()), 1);
    let client = IpGeolocationClient::with_transport(
        IpGeolocationClientConfig {
            api_key: Some("k".to_string()),
            request_origin: Some("https://app.example.com".to_string()),
            ..IpGeolocationClientConfig::default()
        },
        transport.clone(),
    )
    .unwrap();
    let response = client
        .bulk_lookup_ip_geolocation_items(&BulkLookupIpGeolocationRequest {
            ips: vec!["a\"b".to_string()],
            ..BulkLookupIpGeolocationRequest::default()
        })
        .ok()
        .unwrap();
    assert!(response.data.is_empty());
    let requests = transport.recorded_requests();
    let sent = &requests[0];
    assert_eq!(sent.method, HttpMethod::Post);
    assert_eq!(sent.url, "https://api.ipgeolocation.io/v3/ipgeo-bulk?apiKey=k&output=json");
    assert_eq!(sent.headers.get("Origin").unwrap(), "https://app.example.com");
    assert_eq!(
        String::from_utf8(sent.body.clone().unwrap()).unwrap(),
        r#"{"ips":["a\"b"]}"#
    );
}

#[test]
fn bulk_items_mark_errors_by_members() {
    let body = r#"[{"message":"bad"},{"message":"kept","ip":"1.1.1.1"},{"error":true},5]"#;
    let transport = MockTransport::new(ok_response(body, StrMap::new()), 1);
    let client = IpGeolocationClient::with_transport(keyed_config(), transport).unwrap();
    let response = client
        .bulk_lookup_ip_geolocation_items(&BulkLookupIpGeolocationRequest {
            ips: vec!["1.1.1.1".to_string()],
            ..BulkLookupIpGeolocationRequest::default()
        })
        .ok()
        .unwrap();
    assert_eq!(response.data.len(), 4);
    assert!(matches!(&response.data[0], BulkLookupItem::Failure(m) if m == "bad"));
    assert!(matches!(&response.data[1], BulkLookupItem::Success(_)));
    assert!(matches!(&response.data[2], BulkLookupItem::Failure(m) if m == "Bulk lookup item failed"));
    assert!(matches!(&response.data[3], BulkLookupItem::Success(_)));
}

#[test]
fn closed_client_refuses_bulk_calls_too() {
    let mut client = IpGeolocationClient::with_transport(
        keyed_config(),
        MockTransport::new(HttpResponseData::default(), 0),
    )
    .unwrap();
    client.close();
    let error = client
        .bulk_lookup_ip_geolocation_raw(&BulkLookupIpGeolocationRequest::default())
        .unwrap_err();
    assert!(matches!(error, IpGeolocationError::ClientClosed));
}

#[test]
fn with_transport_checks_the_config_too() {
    let error = IpGeolocationClient::with_transport(
        IpGeolocationClientConfig {
            connect_timeout_ms: 0,
            ..IpGeolocationClientConfig::default()
        },
        MockTransport::new(HttpResponseData::default(), 0),
    )
    .err()
    .unwrap();
    assert_eq!(error.to_string(), "connect_timeout_ms must be greater than zero");
}

#[test]
fn client_debug_text_hides_the_api_key() {
    let mut client = IpGeolocationClient::<MockTransport>::new(keyed_config()).ok().unwrap();
    let text = client.debug_text();
    assert!(text.starts_with("IpGeolocationClient { config: IpGeolocationClientConfig { api_key: \"[REDACTED]\""));
    assert!(text.ends_with(", closed: false, .. }"));
    assert!(!text.contains("secret"));
    client.close();
    assert!(client.debug_text().ends_with(", closed: true, .. }"));
}

#[test]
fn request_user_agent_replaces_a_header_in_another_case() {
    let mut headers = StrMap::new();
    headers.insert("user-agent".to_string(), "X".to_string());
    headers.insert(" USER-AGENT ".to_string(), "Z".to_string());
    headers.insert("X-Other".to_string(), " kept ".to_string());
    let sent = ipgeolocation::building::build_headers(
        &None,
        &headers,
        &Some("Y".to_string()),
        ResponseFormat::Json,
        false,
    );
    assert_eq!(sent.get("User-Agent").unwrap(), "Y");
    assert!(sent.get("user-agent").is_none());
    assert!(sent.get("USER-AGENT").is_none());
    assert_eq!(sent.get("X-Other").unwrap(), "kept");
    assert_eq!(sent.len(), 3);
}

#[test]
fn header_user_agent_in_another_case_is_sent_under_one_name() {
    let mut headers = StrMap::new();
    headers.insert("user-agent".to_string(), " X ".to_string());
    let sent = ipgeolocation::building::build_headers(
        &None,
        &headers,
        &None,
        ResponseFormat::Xml,
        true,
    );
    assert_eq!(sent.get("User-Agent").unwrap(), "X");
    assert!(sent.get("user-agent").is_none());
    assert_eq!(sent.get("Accept").unwrap(), "application/xml");
    assert_eq!(sent.get("Content-Type").unwrap(), "application/json");
}

#[test]
fn bulk_body_is_built_from_trimmed_ips() {
    let ips = vec![
        " 8.8.8.8 ".to_string(),
        "8.8.8.8".to_string(),
        "a\"b\\c".to_string(),
    ];
    let body = ipgeolocation::building::bulk_body(&ips).unwrap();
    assert_eq!(
        String::from_utf8(body).unwrap(),
        r#"{"ips":["8.8.8.8","8.8.8.8","a\"b\\c"]}"#
    );
    assert_eq!(
        String::from_utf8(ipgeolocation::building::bulk_body(&Vec::new()).unwrap()).unwrap(),
        r#"{"ips":[]}"#
    );
}

struct FailingConnect;

impl ConnectTransport for FailingConnect {
    fn connect(connect_timeout_ms: u64) -> Result<Self, IpGeolocationError> {
        Err(IpGeolocationError::transport_message(format!(
            "cannot connect within {connect_timeout_ms} ms"
        )))
    }
}

#[test]
fn new_hands_the_connect_timeout_over_and_passes_its_error_on() {
    let config = IpGeolocationClientConfig {
        connect_timeout_ms: 4321,
        ..keyed_config()
    };
    let error = IpGeolocationClient::<FailingConnect>::new(config).err().unwrap();
    assert_eq!(error.to_string(), "cannot connect within 4321 ms");
}

#[test]
fn api_error_message_prefers_message_over_nested_and_body() {
    let transport = MockTransport::new(
        HttpResponseData {
            status_code: 422,
            body: r#" {"message":"top","error":{"message":"nested"}} "#.to_string(),
            headers: StrMap::new(),
        },
        1,
    );
    let client = IpGeolocationClient::with_transport(keyed_config(), transport).unwrap();
    let error = client
        .lookup_ip_geolocation_raw(&LookupIpGeolocationRequest::default())
        .unwrap_err();
    assert_eq!(error.to_string(), "top (status 422)");

    let transport = MockTransport::new(
        HttpResponseData {
            status_code: 422,
            body: r#"{"message":5,"error":{"message":7}}"#.to_string(),
            headers: StrMap::new(),
        },
        1,
    );
    let client = IpGeolocationClient::with_transport(keyed_config(), transport).unwrap();
    let error = client
        .lookup_ip_geolocation_raw(&LookupIpGeolocationRequest::default())
        .unwrap_err();
    assert_eq!(error.to_string(), r#"{"message":5,"error":{"message":7}} (status 422)"#);
}

#[test]
fn padded_user_agent_header_is_used_when_the_request_names_none() {
    let mut headers = StrMap::new();
    headers.insert(" user-agent ".to_string(), " X ".to_string());
    let sent = ipgeolocation::building::build_headers(
        &None,
        &headers,
        &None,
        ResponseFormat::Json,
        false,
    );
    assert_eq!(sent.get("User-Agent").unwrap(), "X");
    assert!(sent.get("user-agent").is_none());
    assert_eq!(sent.len(), 2);
}

#[test]
fn api_error_shows_a_three_digit_status() {
    let transport = MockTransport::new(
        HttpResponseData {
            status_code: 503,
            body: "  ".to_string(),
            headers: StrMap::new(),
        },
        1,
    );
    let client = IpGeolocationClient::with_transport(keyed_config(), transport).unwrap();
    let error = client
        .lookup_ip_geolocation_raw(&LookupIpGeolocationRequest::default())
        .unwrap_err();
    assert_eq!(error.to_string(), "API request failed (status 503)");
}
