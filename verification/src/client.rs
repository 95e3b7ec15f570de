//! The client: it checks each call, builds the request, hands it to its
//! transport and turns the response into data, metadata or an error.

use vstd::prelude::*;
use crate::api_response::ApiResponse;
use crate::building::{
    build_headers, build_url, bulk_body, bulk_body_text, default_user_agent_string,
    default_user_agent_text, normalize_optional_string, normalized, opt_pair, option_pairs,
    outgoing_headers, push_option_pairs, push_optional_pair, url_query_appended,
    without_trailing_slashes,
};
use crate::config::{config_error, debug_text_of, first_error, IpGeolocationClientConfig};
use crate::errors::{is_validation_error, IpGeolocationError, ValidationError};
use crate::errors::is_serialization_error;
use crate::json::{items_for_body, json_array_elements, parse_bulk_lookup_results, BulkLookupItem};
use crate::requests::{
    bulk_request_error, lookup_request_error, BulkLookupIpGeolocationRequest,
    LookupIpGeolocationRequest,
};
use crate::response_format::ResponseFormat;
use crate::responses::{api_message, finish_response, is_success, metadata_of, response_outcome};
use crate::str_map::text_entries;
use crate::transport::{ConnectTransport, HttpMethod, HttpRequestData, HttpResponseData, HttpTransport};
use crate::url_parts::{opt_chars, pair_chars, url_parse_result, url_with_query_pairs};

verus! {

/// Why a single lookup is refused before anything is sent, if it is.
pub open spec fn single_lookup_error(
    config: IpGeolocationClientConfig,
    request: LookupIpGeolocationRequest,
    typed: bool,
) -> Option<Seq<char>> {
    if config.api_key is None && config.request_origin is None {
        Some("single lookup requires api_key or request_origin in client config"@)
    } else {
        first_error(
            lookup_request_error(request),
            if typed && request.output == ResponseFormat::Xml {
                Some("typed methods support JSON only"@)
            } else {
                None
            },
        )
    }
}

/// Why a bulk lookup is refused before anything is sent, if it is.
pub open spec fn bulk_lookup_error(
    config: IpGeolocationClientConfig,
    request: BulkLookupIpGeolocationRequest,
    typed: bool,
) -> Option<Seq<char>> {
    if config.api_key is None {
        Some("bulk lookup requires api_key in client config"@)
    } else {
        first_error(
            bulk_request_error(request),
            if typed && request.output == ResponseFormat::Xml {
                Some("typed methods support JSON only"@)
            } else {
                None
            },
        )
    }
}

/// The single lookup endpoint under the configured base URL.
pub open spec fn lookup_base(config: IpGeolocationClientConfig) -> Seq<char> {
    without_trailing_slashes(config.base_url@) + "/v3/ipgeo"@
}

/// The bulk lookup endpoint under the configured base URL.
pub open spec fn bulk_base(config: IpGeolocationClientConfig) -> Seq<char> {
    without_trailing_slashes(config.base_url@) + "/v3/ipgeo-bulk"@
}

/// The query of a single lookup: `apiKey`, `ip`, then the shared options.
pub open spec fn lookup_query(
    config: IpGeolocationClientConfig,
    request: LookupIpGeolocationRequest,
) -> Seq<(Seq<char>, Seq<char>)> {
    opt_pair("apiKey"@, normalized(opt_chars(config.api_key))) + opt_pair(
        "ip"@,
        normalized(opt_chars(request.ip)),
    ) + option_pairs(
        request.lang,
        request.include_modules@,
        request.fields@,
        request.excludes@,
        request.output,
    )
}

/// The query of a bulk lookup: `apiKey`, then the shared options.
pub open spec fn bulk_query(
    config: IpGeolocationClientConfig,
    request: BulkLookupIpGeolocationRequest,
) -> Seq<(Seq<char>, Seq<char>)> {
    opt_pair("apiKey"@, normalized(opt_chars(config.api_key))) + option_pairs(
        request.lang,
        request.include_modules@,
        request.fields@,
        request.excludes@,
        request.output,
    )
}

/// The HTTP request that a single lookup sends.
pub open spec fn is_lookup_request_for(
    config: IpGeolocationClientConfig,
    request: LookupIpGeolocationRequest,
    sent: HttpRequestData,
) -> bool {
    &&& sent.method == HttpMethod::Get
    &&& sent.url@ == url_with_query_pairs(lookup_base(config), lookup_query(config, request))
    &&& url_query_appended(lookup_base(config), lookup_query(config, request), sent.url@)
    &&& text_entries(sent.headers.entries()) == outgoing_headers(
        opt_chars(config.request_origin),
        text_entries(request.headers.entries()),
        opt_chars(request.user_agent),
        request.output,
        false,
    )
    &&& sent.body is None
    &&& sent.request_timeout_ms == config.request_timeout_ms
}

/// The HTTP request that a bulk lookup sends.
pub open spec fn is_bulk_request_for(
    config: IpGeolocationClientConfig,
    request: BulkLookupIpGeolocationRequest,
    sent: HttpRequestData,
) -> bool {
    &&& sent.method == HttpMethod::Post
    &&& sent.url@ == url_with_query_pairs(bulk_base(config), bulk_query(config, request))
    &&& url_query_appended(bulk_base(config), bulk_query(config, request), sent.url@)
    &&& text_entries(sent.headers.entries()) == outgoing_headers(
        opt_chars(config.request_origin),
        text_entries(request.headers.entries()),
        opt_chars(request.user_agent),
        request.output,
        true,
    )
    &&& sent.body matches Some(bytes) && bytes@ == vstd::utf8::encode_utf8(
        bulk_body_text(request.ips@),
    )
    &&& sent.request_timeout_ms == config.request_timeout_ms
}

/// The message prefix of a base URL that does not parse once the endpoint path is added.
pub open spec fn is_base_url_error(e: IpGeolocationError) -> bool {
    exists|t: Seq<char>| is_validation_error(e, "invalid base_url after normalization: "@ + t)
}

/// The debug text of a client: its configuration, with the API key hidden,
/// and whether it is closed.
pub open spec fn client_debug_text(config: IpGeolocationClientConfig, closed: bool) -> Seq<char> {
    "IpGeolocationClient { config: "@ + debug_text_of(config) + ", closed: "@ + (if closed {
        "true"@
    } else {
        "false"@
    }) + ", .. }"@
}

/// A client of the IP Location API, over a transport that carries its requests.
pub struct IpGeolocationClient<T> {
    config: IpGeolocationClientConfig,
    transport: T,
    closed: bool,
}

impl<T: Clone> Clone for IpGeolocationClient<T> {
    /// A client with the same configuration and state, over a clone of the transport.
    fn clone(&self) -> (c: Self)
        ensures
            c.config() == self.config(),
            c.is_closed() == self.is_closed(),
    {
        proof {
            use_type_invariant(self);
        }
        IpGeolocationClient {
            config: self.config.clone(),
            transport: self.transport.clone(),
            closed: self.closed,
        }
    }
}

impl<T> IpGeolocationClient<T> {
    /// The configuration that the client was made with.
    pub closed spec fn config(self) -> IpGeolocationClientConfig {
        self.config
    }

    /// Whether `close` was called.
    pub closed spec fn is_closed(self) -> bool {
        self.closed
    }

    /// The transport that the client was made with.
    pub closed spec fn transport(self) -> T {
        self.transport
    }

    /// A client only ever holds a configuration that passes validation.
    #[verifier::type_invariant]
    closed spec fn valid(self) -> bool {
        config_error(self.config) is None
    }

    /// Makes a client over the given transport, once the configuration passes.
    pub fn with_transport(config: IpGeolocationClientConfig, transport: T) -> (r: Result<
        Self,
        IpGeolocationError,
    >)
        ensures
            match config_error(config) {
                Some(m) => r matches Err(e) && is_validation_error(e, m),
                None => r matches Ok(c) && c.config() == config && !c.is_closed() && c.transport()
                    == transport,
            },
    {
        match config.validate() {
            Ok(()) => Ok(IpGeolocationClient { config, transport, closed: false }),
            Err(error) => Err(IpGeolocationError::Validation(error)),
        }
    }

    /// The user agent that requests carry when they name none.
    pub fn default_user_agent() -> (s: String)
        ensures
            s@ == default_user_agent_text(),
    {
        default_user_agent_string()
    }

    /// Marks the client closed; every later call is refused.
    pub fn close(&mut self)
        ensures
            final(self).is_closed(),
            final(self).config() == old(self).config(),
            final(self).transport() == old(self).transport(),
    {
        proof {
            use_type_invariant(&*self);
        }
        self.closed = true;
    }

    /// The text that `Debug` shows for the client; the transport is left out.
    pub fn debug_text(&self) -> (s: String)
        ensures
            s@ == client_debug_text(self.config(), self.is_closed()),
    {
        let mut s = "IpGeolocationClient { config: ".to_owned();
        s.append(self.config.redacted_debug().as_str());
        s.append(", closed: ");
        if self.closed {
            s.append("true");
        } else {
            s.append("false");
        }
        s.append(", .. }");
        s
    }

    fn ensure_open(&self) -> (r: Result<(), IpGeolocationError>)
        ensures
            self.is_closed() ==> (r matches Err(e) && e is ClientClosed),
            !self.is_closed() ==> r is Ok,
    {
        if self.closed {
            return Err(IpGeolocationError::ClientClosed);
        }
        Ok(())
    }

    fn validate_single_request(&self, request: &LookupIpGeolocationRequest, typed: bool) -> (r:
        Result<(), IpGeolocationError>)
        ensures
            match single_lookup_error(self.config(), *request, typed) {
                Some(m) => r matches Err(e) && is_validation_error(e, m),
                None => r is Ok,
            },
    {
        if self.config.api_key.is_none() && self.config.request_origin.is_none() {
            return Err(
                IpGeolocationError::Validation(
                    ValidationError::new(
                        "single lookup requires api_key or request_origin in client config".to_owned(),
                    ),
                ),
            );
        }
        if let Err(error) = request.validate() {
            return Err(IpGeolocationError::Validation(error));
        }
        if typed && request.output == ResponseFormat::Xml {
            return Err(
                IpGeolocationError::Validation(
                    ValidationError::new("typed methods support JSON only".to_owned()),
                ),
            );
        }
        Ok(())
    }

    fn validate_bulk_request(&self, request: &BulkLookupIpGeolocationRequest, typed: bool) -> (r:
        Result<(), IpGeolocationError>)
        ensures
            match bulk_lookup_error(self.config(), *request, typed) {
                Some(m) => r matches Err(e) && is_validation_error(e, m),
                None => r is Ok,
            },
    {
        if self.config.api_key.is_none() {
            return Err(
                IpGeolocationError::Validation(
                    ValidationError::new("bulk lookup requires api_key in client config".to_owned()),
                ),
            );
        }
        if let Err(error) = request.validate() {
            return Err(IpGeolocationError::Validation(error));
        }
        if typed && request.output == ResponseFormat::Xml {
            return Err(
                IpGeolocationError::Validation(
                    ValidationError::new("typed methods support JSON only".to_owned()),
                ),
            );
        }
        Ok(())
    }

    fn build_lookup_request(&self, request: &LookupIpGeolocationRequest) -> (r: Result<
        HttpRequestData,
        IpGeolocationError,
    >)
        ensures
            r is Ok <==> url_parse_result(lookup_base(self.config())) is Some,
            r matches Ok(sent) ==> is_lookup_request_for(self.config(), *request, sent),
            r matches Err(e) ==> is_base_url_error(e),
    {
        let mut pairs: Vec<(String, String)> = Vec::new();
        assert(pair_chars(pairs@) =~= Seq::<(Seq<char>, Seq<char>)>::empty());
        push_optional_pair(&mut pairs, "apiKey", normalize_optional_string(&self.config.api_key));
        push_optional_pair(&mut pairs, "ip", normalize_optional_string(&request.ip));
        push_option_pairs(
            &mut pairs,
            &request.lang,
            &request.include_modules,
            &request.fields,
            &request.excludes,
            request.output,
        );
        assert(pair_chars(pairs@) =~= lookup_query(self.config(), *request));
        let url = build_url(self.config.base_url.as_str(), "/v3/ipgeo", &pairs)?;
        let headers = build_headers(
            &self.config.request_origin,
            &request.headers,
            &request.user_agent,
            request.output,
            false,
        );
        Ok(
            HttpRequestData {
                method: HttpMethod::Get,
                url,
                headers,
                body: None,
                request_timeout_ms: self.config.request_timeout_ms,
            },
        )
    }

    fn build_bulk_request(&self, request: &BulkLookupIpGeolocationRequest) -> (r: Result<
        HttpRequestData,
        IpGeolocationError,
    >)
        ensures
            r is Ok <==> url_parse_result(bulk_base(self.config())) is Some,
            r matches Ok(sent) ==> is_bulk_request_for(self.config(), *request, sent),
            r matches Err(e) ==> is_base_url_error(e),
    {
        let mut pairs: Vec<(String, String)> = Vec::new();
        assert(pair_chars(pairs@) =~= Seq::<(Seq<char>, Seq<char>)>::empty());
        push_optional_pair(&mut pairs, "apiKey", normalize_optional_string(&self.config.api_key));
        push_option_pairs(
            &mut pairs,
            &request.lang,
            &request.include_modules,
            &request.fields,
            &request.excludes,
            request.output,
        );
        assert(pair_chars(pairs@) =~= bulk_query(self.config(), *request));
        let url = build_url(self.config.base_url.as_str(), "/v3/ipgeo-bulk", &pairs)?;
        let body = bulk_body(&request.ips)?;
        let headers = build_headers(
            &self.config.request_origin,
            &request.headers,
            &request.user_agent,
            request.output,
            true,
        );
        Ok(
            HttpRequestData {
                method: HttpMethod::Post,
                url,
                headers,
                body: Some(body),
                request_timeout_ms: self.config.request_timeout_ms,
            },
        )
    }

    /// Everything that a single lookup does before sending: the client must be
    /// open, the call and the request must pass their rules (`typed` adds the
    /// JSON-only rule), then the request is built.
    pub fn prepare_lookup_request(&self, request: &LookupIpGeolocationRequest, typed: bool) -> (r:
        Result<HttpRequestData, IpGeolocationError>)
        ensures
            self.is_closed() ==> (r matches Err(e) && e is ClientClosed),
            !self.is_closed() ==> match single_lookup_error(self.config(), *request, typed) {
                Some(m) => r matches Err(e) && is_validation_error(e, m),
                None => {
                    &&& r is Ok <==> url_parse_result(lookup_base(self.config())) is Some
                    &&& r matches Ok(sent) ==> is_lookup_request_for(self.config(), *request, sent)
                    &&& r matches Err(e) ==> is_base_url_error(e)
                },
            },
    {
        self.ensure_open()?;
        self.validate_single_request(request, typed)?;
        self.build_lookup_request(request)
    }

    /// Everything that a bulk lookup does before sending: the client must be
    /// open, the call and the request must pass their rules (`typed` adds the
    /// JSON-only rule), then the request and its body are built.
    pub fn prepare_bulk_request(&self, request: &BulkLookupIpGeolocationRequest, typed: bool) -> (r:
        Result<HttpRequestData, IpGeolocationError>)
        ensures
            self.is_closed() ==> (r matches Err(e) && e is ClientClosed),
            !self.is_closed() ==> match bulk_lookup_error(self.config(), *request, typed) {
                Some(m) => r matches Err(e) && is_validation_error(e, m),
                None => {
                    &&& r is Ok <==> url_parse_result(bulk_base(self.config())) is Some
                    &&& r matches Ok(sent) ==> is_bulk_request_for(self.config(), *request, sent)
                    &&& r matches Err(e) ==> is_base_url_error(e)
                },
            },
    {
        self.ensure_open()?;
        self.validate_bulk_request(request, typed)?;
        self.build_bulk_request(request)
    }
}

impl<T: ConnectTransport> IpGeolocationClient<T> {
    /// Main client for the IPGeolocation.io IP Location API: the configuration
    /// is checked first, and only a valid one gets a transport made for it.
    pub fn new(config: IpGeolocationClientConfig) -> (r: Result<Self, IpGeolocationError>)
        ensures
            match config_error(config) {
                Some(m) => r matches Err(e) && is_validation_error(e, m),
                None => exists|outcome: Result<T, IpGeolocationError>|
                    #[trigger] call_ensures(T::connect, (config.connect_timeout_ms,), outcome)
                        && connected_client(config, outcome, r),
            },
    {
        if let Err(error) = config.validate() {
            return Err(IpGeolocationError::Validation(error));
        }
        let outcome = T::connect(config.connect_timeout_ms);
        let ghost seen = outcome;
        let r = match outcome {
            Ok(transport) => Ok(IpGeolocationClient { config, transport, closed: false }),
            Err(error) => Err(error),
        };
        assert(connected_client(config, seen, r));
        r
    }
}

/// What a client made with a valid configuration is, given what connecting
/// its transport gave: a fresh open client over that transport, or that error.
pub open spec fn connected_client<T>(
    config: IpGeolocationClientConfig,
    outcome: Result<T, IpGeolocationError>,
    r: Result<IpGeolocationClient<T>, IpGeolocationError>,
) -> bool {
    match outcome {
        Ok(t) => r matches Ok(c) && c.config() == config && !c.is_closed() && c.transport() == t,
        Err(e) => r matches Err(e2) && e2 == e,
    }
}

/// What a call gives for what the transport answered: a transport error comes
/// back as it is; a response becomes data and metadata for a success status,
/// else an API error with its status and message.
pub open spec fn answered_with(
    r: Result<ApiResponse<String>, IpGeolocationError>,
    outcome: Result<(HttpResponseData, u64), IpGeolocationError>,
) -> bool {
    match outcome {
        Ok(p) => response_outcome(r, p.0, p.1),
        Err(e) => r matches Err(e2) && e2 == e,
    }
}

/// What a typed bulk call gives for what the transport answered: as
/// `answered_with`, except that the body of a success is read into one item
/// per element of its JSON array, and a body that is no JSON array gives a
/// serialization error.
pub open spec fn items_answered_with(
    r: Result<ApiResponse<Vec<BulkLookupItem>>, IpGeolocationError>,
    outcome: Result<(HttpResponseData, u64), IpGeolocationError>,
) -> bool {
    match outcome {
        Err(e) => r matches Err(e2) && e2 == e,
        Ok(p) => if !is_success(p.0.status_code) {
            r matches Err(e) && e matches IpGeolocationError::Api(api) && api@.0 == p.0.status_code
                && api@.1 == api_message(p.0.status_code, p.0.body@)
        } else if json_array_elements(p.0.body@) is Some {
            r matches Ok(a) && items_for_body(a.data@, p.0.body@) && metadata_of(
                a.metadata,
                p.0.status_code,
                p.1,
                p.0.headers,
            )
        } else {
            r matches Err(e) && is_serialization_error(
                e,
                "failed to parse bulk lookup response body"@,
            )
        },
    }
}

/// A single lookup that passes its checks hands the transport the request
/// that `prepare_lookup_request` builds, and gives what `answered_with` says
/// of the transport's answer.
pub open spec fn single_call_answered<T: HttpTransport>(
    c: IpGeolocationClient<T>,
    request: LookupIpGeolocationRequest,
    typed: bool,
    r: Result<ApiResponse<String>, IpGeolocationError>,
) -> bool {
    !c.is_closed() && single_lookup_error(c.config(), request, typed) is None && url_parse_result(
        lookup_base(c.config()),
    ) is Some ==> exists|sent: HttpRequestData, outcome: Result<(HttpResponseData, u64), IpGeolocationError>|
        #[trigger] call_ensures(T::send, (&c.transport(), &sent), outcome)
            && is_lookup_request_for(c.config(), request, sent) && answered_with(r, outcome)
}

/// A bulk lookup that passes its checks hands the transport the request that
/// `prepare_bulk_request` builds, and gives what `answered_with` says of the
/// transport's answer.
pub open spec fn bulk_call_answered<T: HttpTransport>(
    c: IpGeolocationClient<T>,
    request: BulkLookupIpGeolocationRequest,
    typed: bool,
    r: Result<ApiResponse<String>, IpGeolocationError>,
) -> bool {
    !c.is_closed() && bulk_lookup_error(c.config(), request, typed) is None && url_parse_result(
        bulk_base(c.config()),
    ) is Some ==> exists|sent: HttpRequestData, outcome: Result<(HttpResponseData, u64), IpGeolocationError>|
        #[trigger] call_ensures(T::send, (&c.transport(), &sent), outcome)
            && is_bulk_request_for(c.config(), request, sent) && answered_with(r, outcome)
}

/// A typed bulk lookup that passes its checks hands the transport the request
/// that `prepare_bulk_request` builds, and gives what `items_answered_with`
/// says of the transport's answer.
pub open spec fn bulk_items_answered<T: HttpTransport>(
    c: IpGeolocationClient<T>,
    request: BulkLookupIpGeolocationRequest,
    r: Result<ApiResponse<Vec<BulkLookupItem>>, IpGeolocationError>,
) -> bool {
    !c.is_closed() && bulk_lookup_error(c.config(), request, true) is None && url_parse_result(
        bulk_base(c.config()),
    ) is Some ==> exists|sent: HttpRequestData, outcome: Result<(HttpResponseData, u64), IpGeolocationError>|
        #[trigger] call_ensures(T::send, (&c.transport(), &sent), outcome)
            && is_bulk_request_for(c.config(), request, sent) && items_answered_with(r, outcome)
}

/// How a single lookup fails before anything is sent, as `prepare_lookup_request` says.
pub open spec fn single_call_refused<T, R>(
    c: IpGeolocationClient<T>,
    request: LookupIpGeolocationRequest,
    typed: bool,
    r: Result<R, IpGeolocationError>,
) -> bool {
    &&& c.is_closed() ==> (r matches Err(e) && e is ClientClosed)
    &&& !c.is_closed() ==> match single_lookup_error(c.config(), request, typed) {
        Some(m) => r matches Err(e) && is_validation_error(e, m),
        None => url_parse_result(lookup_base(c.config())) is None ==> (r matches Err(e)
            && is_base_url_error(e)),
    }
    &&& r is Ok ==> !c.is_closed() && single_lookup_error(c.config(), request, typed) is None
}

/// How a bulk lookup fails before anything is sent, as `prepare_bulk_request` says.
pub open spec fn bulk_call_refused<T, R>(
    c: IpGeolocationClient<T>,
    request: BulkLookupIpGeolocationRequest,
    typed: bool,
    r: Result<R, IpGeolocationError>,
) -> bool {
    &&& c.is_closed() ==> (r matches Err(e) && e is ClientClosed)
    &&& !c.is_closed() ==> match bulk_lookup_error(c.config(), request, typed) {
        Some(m) => r matches Err(e) && is_validation_error(e, m),
        None => url_parse_result(bulk_base(c.config())) is None ==> (r matches Err(e)
            && is_base_url_error(e)),
    }
    &&& r is Ok ==> !c.is_closed() && bulk_lookup_error(c.config(), request, typed) is None
}

impl<T: HttpTransport> IpGeolocationClient<T> {
    fn send_single(&self, request: &LookupIpGeolocationRequest, typed: bool) -> (r: Result<
        ApiResponse<String>,
        IpGeolocationError,
    >)
        ensures
            single_call_refused(*self, *request, typed, r),
            single_call_answered(*self, *request, typed, r),
    {
        let sent = self.prepare_lookup_request(request, typed)?;
        let outcome = self.transport.send(&sent);
        let ghost seen = outcome;
        let r = match outcome {
            Ok((response, duration_ms)) => finish_response(response, duration_ms),
            Err(error) => Err(error),
        };
        assert(answered_with(r, seen));
        assert(call_ensures(T::send, (&self.transport(), &sent), seen));
        r
    }

    fn send_bulk(&self, request: &BulkLookupIpGeolocationRequest, typed: bool) -> (r: Result<
        ApiResponse<String>,
        IpGeolocationError,
    >)
        ensures
            bulk_call_refused(*self, *request, typed, r),
            bulk_call_answered(*self, *request, typed, r),
    {
        let sent = self.prepare_bulk_request(request, typed)?;
        let outcome = self.transport.send(&sent);
        let ghost seen = outcome;
        let r = match outcome {
            Ok((response, duration_ms)) => finish_response(response, duration_ms),
            Err(error) => Err(error),
        };
        assert(answered_with(r, seen));
        assert(call_ensures(T::send, (&self.transport(), &sent), seen));
        r
    }

    /// A single lookup whose body is handed back as it came, JSON or XML.
    pub fn lookup_ip_geolocation_raw(&self, request: &LookupIpGeolocationRequest) -> (r: Result<
        ApiResponse<String>,
        IpGeolocationError,
    >)
        ensures
            single_call_refused(*self, *request, false, r),
            single_call_answered(*self, *request, false, r),
    {
        self.send_single(request, false)
    }

    /// A single lookup for the typed response: XML output is refused, and the
    /// JSON body comes back to be read into the response model.
    pub fn lookup_ip_geolocation_body(&self, request: &LookupIpGeolocationRequest) -> (r: Result<
        ApiResponse<String>,
        IpGeolocationError,
    >)
        ensures
            single_call_refused(*self, *request, true, r),
            single_call_answered(*self, *request, true, r),
    {
        self.send_single(request, true)
    }

    /// A bulk lookup whose body is handed back as it came, JSON or XML.
    pub fn bulk_lookup_ip_geolocation_raw(&self, request: &BulkLookupIpGeolocationRequest) -> (r:
        Result<ApiResponse<String>, IpGeolocationError>)
        ensures
            bulk_call_refused(*self, *request, false, r),
            bulk_call_answered(*self, *request, false, r),
    {
        self.send_bulk(request, false)
    }

    /// A bulk lookup for typed results: XML output is refused, and the JSON
    /// array is read into one item per element, in order.
    pub fn bulk_lookup_ip_geolocation_items(&self, request: &BulkLookupIpGeolocationRequest) -> (r:
        Result<ApiResponse<Vec<BulkLookupItem>>, IpGeolocationError>)
        ensures
            bulk_call_refused(*self, *request, true, r),
            bulk_items_answered(*self, *request, r),
    {
        let raw = self.send_bulk(request, true);
        let ghost raw_seen = raw;
        let r = match raw {
            Ok(raw) => match parse_bulk_lookup_results(raw.data.as_str()) {
                Ok(items) => Ok(ApiResponse { data: items, metadata: raw.metadata }),
                Err(error) => Err(error),
            },
            Err(error) => Err(error),
        };
        proof {
            if !self.is_closed() && bulk_lookup_error(self.config(), *request, true) is None
                && url_parse_result(bulk_base(self.config())) is Some {
                let (sent, outcome) = choose|
                    sent: HttpRequestData,
                    outcome: Result<(HttpResponseData, u64), IpGeolocationError>,
                |
                    #[trigger] call_ensures(T::send, (&self.transport(), &sent), outcome)
                        && is_bulk_request_for(self.config(), *request, sent) && answered_with(
                        raw_seen,
                        outcome,
                    );
                assert(items_answered_with(r, outcome));
                assert(call_ensures(T::send, (&self.transport(), &sent), outcome));
            }
        }
        r
    }
}

} // verus!
