//! Properties of the client that span several functions.

use vstd::prelude::*;
use crate::api_response::ApiResponse;
use crate::building::{
    accept_value, is_user_agent_name, normalized, outgoing_headers, resolved_user_agent,
    trimmed_headers, user_agent_headers_carry,
};
use crate::text::{eq_ignoring_ascii_case, trim};
use crate::client::{
    bulk_call_refused, bulk_lookup_error, bulk_query, lookup_query, single_call_refused,
    single_lookup_error, IpGeolocationClient,
};
use crate::url_parts::opt_chars;
use crate::config::{
    debug_text_of, has_prefix, origin_field_error, request_origin_error, IpGeolocationClientConfig,
};
use crate::url_parts::{url_parse_result, UrlPartsView};
use crate::errors::IpGeolocationError;
use crate::requests::{BulkLookupIpGeolocationRequest, LookupIpGeolocationRequest};
use crate::response_format::ResponseFormat;
use crate::responses::{first_header_value, is_success, response_outcome};
use crate::text::{folded, has_line_break, is_blank, parsed_u32};
use crate::building::{joined, joined_trimmed, opt_pair, trimmed_parts};
use crate::response_format::format_name;
use crate::requests::{
    bulk_request_error, headers_error, language_error, lookup_request_error, options_error,
    values_error,
};
use crate::config::{config_error, first_error};
use crate::responses::{api_message, default_api_message};
use crate::json::{json_text_parses, json_value_of, member_string, nested_member_string};
use crate::str_map::{entry_lookup, law_lookup_after_insert, law_lookup_other_after_insert};
use crate::transport::HttpResponseData;

verus! {

proof fn lemma_header_names_differ()
    ensures
        "User-Agent"@ != "Accept"@,
        "User-Agent"@ != "Origin"@,
        "User-Agent"@ != "Content-Type"@,
        "Accept"@ != "Origin"@,
        "Accept"@ != "Content-Type"@,
        "Origin"@ != "Content-Type"@,
{
    reveal_strlit("User-Agent");
    reveal_strlit("Accept");
    reveal_strlit("Origin");
    reveal_strlit("Content-Type");
    assert("Accept"@[0] != "Origin"@[0]);
    assert("User-Agent"@[0] != "Content-Type"@[0]);
    assert("User-Agent"@[0] != "Accept"@[0]);
    assert("User-Agent"@[0] != "Origin"@[0]);
    assert("Accept"@[0] != "Content-Type"@[0]);
    assert("Origin"@[0] != "Content-Type"@[0]);
}

proof fn lemma_insert_keeps_user_agents(
    es: Seq<(Seq<char>, Seq<char>)>,
    k: Seq<char>,
    v: Seq<char>,
    u: Seq<char>,
)
    requires
        user_agent_headers_carry(es, u),
        eq_ignoring_ascii_case(k, "User-Agent"@) ==> v == u,
    ensures
        user_agent_headers_carry(crate::str_map::entry_insert(es, k, v), u),
    decreases es.len(),
{
    if es.len() > 0 {
        let t = es.drop_first();
        assert forall|i: int|
            0 <= i < t.len() && eq_ignoring_ascii_case(#[trigger] t[i].0, "User-Agent"@) implies t[i].1
            == u by {
            assert(t[i] == es[i + 1]);
        }
        let r = crate::str_map::entry_insert(es, k, v);
        if es[0].0 == k {
            assert forall|i: int|
                0 <= i < r.len() && eq_ignoring_ascii_case(#[trigger] r[i].0, "User-Agent"@) implies r[i].1
                == u by {
                if i > 0 {
                    assert(r[i] == t[i - 1]);
                }
            }
        } else if crate::text::char_seq_less(es[0].0, k) {
            lemma_insert_keeps_user_agents(t, k, v, u);
            let rt = crate::str_map::entry_insert(t, k, v);
            assert forall|i: int|
                0 <= i < r.len() && eq_ignoring_ascii_case(#[trigger] r[i].0, "User-Agent"@) implies r[i].1
                == u by {
                if i > 0 {
                    assert(r[i] == rt[i - 1]);
                }
            }
        } else {
            assert forall|i: int|
                0 <= i < r.len() && eq_ignoring_ascii_case(#[trigger] r[i].0, "User-Agent"@) implies r[i].1
                == u by {
                if i > 0 {
                    assert(r[i] == es[i - 1]);
                }
            }
        }
    }
}

proof fn lemma_trimmed_headers_hold_no_user_agent(es: Seq<(Seq<char>, Seq<char>)>, u: Seq<char>)
    ensures
        user_agent_headers_carry(trimmed_headers(es), u),
    decreases es.len(),
{
    if es.len() > 0 {
        lemma_trimmed_headers_hold_no_user_agent(es.drop_last(), u);
        if !is_user_agent_name(es.last().0) {
            lemma_insert_keeps_user_agents(
                trimmed_headers(es.drop_last()),
                trim(es.last().0),
                trim(es.last().1),
                u,
            );
        }
    }
}

proof fn lemma_other_names_are_not_user_agent()
    ensures
        !eq_ignoring_ascii_case("Accept"@, "User-Agent"@),
        !eq_ignoring_ascii_case("Origin"@, "User-Agent"@),
        !eq_ignoring_ascii_case("Content-Type"@, "User-Agent"@),
{
    reveal_strlit("User-Agent");
    reveal_strlit("Accept");
    reveal_strlit("Origin");
    reveal_strlit("Content-Type");
}

/// The outgoing `User-Agent` header is the resolved user agent: the request's
/// own `user_agent` when it is set and not blank, even over a `User-Agent`
/// header of the request in any ASCII case; else the first non-blank
/// `User-Agent` header; else the SDK's default. No other header whose name is
/// `User-Agent` in another case goes out beside it with another value.
pub proof fn law_user_agent_header(
    origin: Option<Seq<char>>,
    es: Seq<(Seq<char>, Seq<char>)>,
    user_agent: Option<Seq<char>>,
    output: ResponseFormat,
    with_content_type: bool,
)
    ensures
        entry_lookup(
            outgoing_headers(origin, es, user_agent, output, with_content_type),
            "User-Agent"@,
        ) == Some(resolved_user_agent(user_agent, es)),
        normalized(user_agent) matches Some(u) ==> entry_lookup(
            outgoing_headers(origin, es, user_agent, output, with_content_type),
            "User-Agent"@,
        ) == Some(u),
        user_agent_headers_carry(
            outgoing_headers(origin, es, user_agent, output, with_content_type),
            resolved_user_agent(user_agent, es),
        ),
{
    lemma_header_names_differ();
    lemma_other_names_are_not_user_agent();
    let u = resolved_user_agent(user_agent, es);
    lemma_trimmed_headers_hold_no_user_agent(es, u);
    assert(eq_ignoring_ascii_case("User-Agent"@, "User-Agent"@));
    lemma_insert_keeps_user_agents(trimmed_headers(es), "User-Agent"@, u, u);
    let h1 = entry_insert_user_agent(es, user_agent);
    law_lookup_after_insert(crate::building::trimmed_headers(es), "User-Agent"@, resolved_user_agent(user_agent, es));
    let h2 = crate::str_map::entry_insert(h1, "Accept"@, accept_value(output));
    law_lookup_other_after_insert(h1, "Accept"@, accept_value(output), "User-Agent"@);
    let h3 = match normalized(origin) {
        Some(o) => crate::str_map::entry_insert(h2, "Origin"@, o),
        None => h2,
    };
    lemma_insert_keeps_user_agents(h1, "Accept"@, accept_value(output), u);
    if let Some(o) = normalized(origin) {
        law_lookup_other_after_insert(h2, "Origin"@, o, "User-Agent"@);
        lemma_insert_keeps_user_agents(h2, "Origin"@, o, u);
    }
    if with_content_type {
        law_lookup_other_after_insert(h3, "Content-Type"@, "application/json"@, "User-Agent"@);
        lemma_insert_keeps_user_agents(h3, "Content-Type"@, "application/json"@, u);
    }
}

spec fn entry_insert_user_agent(
    es: Seq<(Seq<char>, Seq<char>)>,
    user_agent: Option<Seq<char>>,
) -> Seq<(Seq<char>, Seq<char>)> {
    crate::str_map::entry_insert(
        crate::building::trimmed_headers(es),
        "User-Agent"@,
        resolved_user_agent(user_agent, es),
    )
}

/// The outgoing `Accept` header names the requested output format.
pub proof fn law_accept_header(
    origin: Option<Seq<char>>,
    es: Seq<(Seq<char>, Seq<char>)>,
    user_agent: Option<Seq<char>>,
    output: ResponseFormat,
    with_content_type: bool,
)
    ensures
        entry_lookup(outgoing_headers(origin, es, user_agent, output, with_content_type), "Accept"@)
            == Some(accept_value(output)),
{
    lemma_header_names_differ();
    let h1 = entry_insert_user_agent(es, user_agent);
    let h2 = crate::str_map::entry_insert(h1, "Accept"@, accept_value(output));
    law_lookup_after_insert(h1, "Accept"@, accept_value(output));
    let h3 = match normalized(origin) {
        Some(o) => crate::str_map::entry_insert(h2, "Origin"@, o),
        None => h2,
    };
    if let Some(o) = normalized(origin) {
        law_lookup_other_after_insert(h2, "Origin"@, o, "Accept"@);
    }
    if with_content_type {
        law_lookup_other_after_insert(h3, "Content-Type"@, "application/json"@, "Accept"@);
    }
}

/// Where a request origin is configured and not blank, it goes out, trimmed,
/// in the `Origin` header.
pub proof fn law_origin_header(
    origin: Option<Seq<char>>,
    es: Seq<(Seq<char>, Seq<char>)>,
    user_agent: Option<Seq<char>>,
    output: ResponseFormat,
    with_content_type: bool,
)
    requires
        normalized(origin) is Some,
    ensures
        entry_lookup(outgoing_headers(origin, es, user_agent, output, with_content_type), "Origin"@)
            == normalized(origin),
{
    lemma_header_names_differ();
    let h1 = entry_insert_user_agent(es, user_agent);
    let h2 = crate::str_map::entry_insert(h1, "Accept"@, accept_value(output));
    let o = normalized(origin)->0;
    let h3 = crate::str_map::entry_insert(h2, "Origin"@, o);
    law_lookup_after_insert(h2, "Origin"@, o);
    if with_content_type {
        law_lookup_other_after_insert(h3, "Content-Type"@, "application/json"@, "Origin"@);
    }
}

/// A request with a body declares it as JSON in `Content-Type`.
pub proof fn law_content_type_header(
    origin: Option<Seq<char>>,
    es: Seq<(Seq<char>, Seq<char>)>,
    user_agent: Option<Seq<char>>,
    output: ResponseFormat,
)
    ensures
        entry_lookup(outgoing_headers(origin, es, user_agent, output, true), "Content-Type"@)
            == Some("application/json"@),
{
    let h1 = entry_insert_user_agent(es, user_agent);
    let h2 = crate::str_map::entry_insert(h1, "Accept"@, accept_value(output));
    let h3 = match normalized(origin) {
        Some(o) => crate::str_map::entry_insert(h2, "Origin"@, o),
        None => h2,
    };
    law_lookup_after_insert(h3, "Content-Type"@, "application/json"@);
}

/// Bulk lookup always requires an API key; a request origin is not enough.
pub proof fn law_bulk_requires_api_key(
    config: IpGeolocationClientConfig,
    request: BulkLookupIpGeolocationRequest,
    typed: bool,
)
    requires
        config.api_key is None,
    ensures
        bulk_lookup_error(config, request, typed) == Some(
            "bulk lookup requires api_key in client config"@,
        ),
{
}

/// A single lookup needs an API key or a request origin.
pub proof fn law_single_requires_credentials(
    config: IpGeolocationClientConfig,
    request: LookupIpGeolocationRequest,
    typed: bool,
)
    requires
        config.api_key is None,
        config.request_origin is None,
    ensures
        single_lookup_error(config, request, typed) == Some(
            "single lookup requires api_key or request_origin in client config"@,
        ),
{
}

/// Typed calls accept JSON output only: a request that would otherwise go out
/// is refused by the typed call for XML output, and the raw call lets it pass.
pub proof fn law_typed_calls_refuse_xml(
    config: IpGeolocationClientConfig,
    request: LookupIpGeolocationRequest,
    bulk: BulkLookupIpGeolocationRequest,
)
    ensures
        single_lookup_error(config, request, false) is None && request.output
            == ResponseFormat::Xml ==> single_lookup_error(config, request, true) == Some(
            "typed methods support JSON only"@,
        ),
        bulk_lookup_error(config, bulk, false) is None && bulk.output == ResponseFormat::Xml
            ==> bulk_lookup_error(config, bulk, true) == Some("typed methods support JSON only"@),
        request.output == ResponseFormat::Json ==> single_lookup_error(config, request, true)
            == single_lookup_error(config, request, false),
        bulk.output == ResponseFormat::Json ==> bulk_lookup_error(config, bulk, true)
            == bulk_lookup_error(config, bulk, false),
{
}

/// A set, non-blank API key goes out, trimmed, as the first query pair
/// `apiKey` of both kinds of lookup, also where a request origin is set too.
pub proof fn law_api_key_in_query(
    config: IpGeolocationClientConfig,
    request: LookupIpGeolocationRequest,
    bulk: BulkLookupIpGeolocationRequest,
)
    requires
        normalized(opt_chars(config.api_key)) is Some,
    ensures
        lookup_query(config, request)[0] == ("apiKey"@, normalized(opt_chars(config.api_key))->0),
        bulk_query(config, bulk)[0] == ("apiKey"@, normalized(opt_chars(config.api_key))->0),
{
}

/// A closed client refuses every call, whatever the request.
pub proof fn law_closed_client_refuses<T, R>(
    c: IpGeolocationClient<T>,
    request: LookupIpGeolocationRequest,
    bulk: BulkLookupIpGeolocationRequest,
    typed: bool,
    single_result: Result<R, IpGeolocationError>,
    bulk_result: Result<R, IpGeolocationError>,
)
    requires
        c.is_closed(),
        single_call_refused(c, request, typed, single_result),
        bulk_call_refused(c, bulk, typed, bulk_result),
    ensures
        single_result matches Err(e) && e is ClientClosed,
        bulk_result matches Err(e) && e is ClientClosed,
{
}

/// Two configurations that differ only in the value of a set API key have the
/// same debug text: the key is never shown.
pub proof fn law_debug_hides_api_key(a: IpGeolocationClientConfig, b: IpGeolocationClientConfig)
    requires
        a.api_key is Some,
        b.api_key is Some,
        a.request_origin == b.request_origin,
        a.base_url == b.base_url,
        a.connect_timeout_ms == b.connect_timeout_ms,
        a.request_timeout_ms == b.request_timeout_ms,
    ensures
        debug_text_of(a) == debug_text_of(b),
{
}

/// A response gives data exactly when its status is in 200..=299.
pub proof fn law_success_iff_2xx(
    r: Result<ApiResponse<String>, IpGeolocationError>,
    response: HttpResponseData,
    duration_ms: u64,
)
    requires
        response_outcome(r, response, duration_ms),
    ensures
        r is Ok <==> is_success(response.status_code),
        r matches Err(e) ==> e is Api,
{
}

/// The index of the first header, in key order, whose name equals `name` in
/// any ASCII case and which carries a value.
pub open spec fn is_first_named(es: Seq<(Seq<char>, Vec<String>)>, name: Seq<char>, i: int) -> bool {
    &&& 0 <= i < es.len()
    &&& eq_ignoring_ascii_case(es[i].0, name)
    &&& es[i].1@.len() > 0
    &&& forall|j: int|
        0 <= j < i ==> !(eq_ignoring_ascii_case(#[trigger] es[j].0, name) && es[j].1@.len() > 0)
}

proof fn lemma_first_header_value(es: Seq<(Seq<char>, Vec<String>)>, name: Seq<char>)
    ensures
        forall|i: int|
            is_first_named(es, name, i) ==> first_header_value(es, name) == Some(es[i].1@[0]@),
        (forall|i: int|
            0 <= i < es.len() ==> !(eq_ignoring_ascii_case(#[trigger] es[i].0, name) && es[i].1@.len()
                > 0)) ==> first_header_value(es, name) is None,
    decreases es.len(),
{
    if es.len() > 0 {
        let t = es.drop_first();
        lemma_first_header_value(t, name);
        assert forall|i: int| is_first_named(es, name, i) implies first_header_value(es, name)
            == Some(es[i].1@[0]@) by {
            if i > 0 {
                assert(!(eq_ignoring_ascii_case(es[0].0, name) && es[0].1@.len() > 0));
                assert forall|j: int| 0 <= j < i - 1 implies !(eq_ignoring_ascii_case(
                    #[trigger] t[j].0,
                    name,
                ) && t[j].1@.len() > 0) by {
                    assert(t[j] == es[j + 1]);
                    assert(!(eq_ignoring_ascii_case(es[j + 1].0, name) && es[j + 1].1@.len() > 0));
                }
                assert(t[i - 1] == es[i]);
                assert(is_first_named(t, name, i - 1));
            }
        }
        if forall|i: int|
            0 <= i < es.len() ==> !(eq_ignoring_ascii_case(#[trigger] es[i].0, name) && es[i].1@.len()
                > 0) {
            assert(!(eq_ignoring_ascii_case(es[0].0, name) && es[0].1@.len() > 0));
            assert forall|i: int| 0 <= i < t.len() implies !(eq_ignoring_ascii_case(
                #[trigger] t[i].0,
                name,
            ) && t[i].1@.len() > 0) by {
                assert(t[i] == es[i + 1]);
                assert(!(eq_ignoring_ascii_case(es[i + 1].0, name) && es[i + 1].1@.len() > 0));
            }
        }
    }
}

/// The credits charged of a successful call are read from the first header,
/// in key order, named `X-Credits-Charged` in any letter case that carries a
/// value: its first value read as a `u32` (`None` where it is no number).
pub proof fn law_credits_charged_any_case(
    r: Result<ApiResponse<String>, IpGeolocationError>,
    response: HttpResponseData,
    duration_ms: u64,
    i: int,
)
    requires
        response_outcome(r, response, duration_ms),
        is_success(response.status_code),
        is_first_named(response.headers.entries(), "X-Credits-Charged"@, i),
    ensures
        r matches Ok(a) && a.metadata.credits_charged == parsed_u32(
            response.headers.entries()[i].1@[0]@,
        ),
{
    lemma_first_header_value(response.headers.entries(), "X-Credits-Charged"@);
}

/// Without any header named `X-Credits-Charged`, in any letter case, that
/// carries a value, a successful call reports no credits charged.
pub proof fn law_credits_charged_absent(
    r: Result<ApiResponse<String>, IpGeolocationError>,
    response: HttpResponseData,
    duration_ms: u64,
)
    requires
        response_outcome(r, response, duration_ms),
        is_success(response.status_code),
        forall|j: int|
            0 <= j < response.headers.entries().len() ==> !(eq_ignoring_ascii_case(
                #[trigger] response.headers.entries()[j].0,
                "X-Credits-Charged"@,
            ) && response.headers.entries()[j].1@.len() > 0),
    ensures
        r matches Ok(a) && a.metadata.credits_charged is None,
{
    lemma_first_header_value(response.headers.entries(), "X-Credits-Charged"@);
}

/// The successful records of a successful call are read from the first
/// header, in key order, named `X-Successful-Record` in any letter case that
/// carries a value.
pub proof fn law_successful_records_any_case(
    r: Result<ApiResponse<String>, IpGeolocationError>,
    response: HttpResponseData,
    duration_ms: u64,
    i: int,
)
    requires
        response_outcome(r, response, duration_ms),
        is_success(response.status_code),
        is_first_named(response.headers.entries(), "X-Successful-Record"@, i),
    ensures
        r matches Ok(a) && a.metadata.successful_records == parsed_u32(
            response.headers.entries()[i].1@[0]@,
        ),
{
    lemma_first_header_value(response.headers.entries(), "X-Successful-Record"@);
}

/// Where no `X-Successful-Record` header carries a value, the successful
/// records are read from the first `X-Successful-Records` header, in any
/// letter case, that carries one.
pub proof fn law_successful_records_plural(
    r: Result<ApiResponse<String>, IpGeolocationError>,
    response: HttpResponseData,
    duration_ms: u64,
    i: int,
)
    requires
        response_outcome(r, response, duration_ms),
        is_success(response.status_code),
        forall|j: int|
            0 <= j < response.headers.entries().len() ==> !(eq_ignoring_ascii_case(
                #[trigger] response.headers.entries()[j].0,
                "X-Successful-Record"@,
            ) && response.headers.entries()[j].1@.len() > 0),
        is_first_named(response.headers.entries(), "X-Successful-Records"@, i),
    ensures
        r matches Ok(a) && a.metadata.successful_records == parsed_u32(
            response.headers.entries()[i].1@[0]@,
        ),
{
    lemma_first_header_value(response.headers.entries(), "X-Successful-Record"@);
    lemma_first_header_value(response.headers.entries(), "X-Successful-Records"@);
}

/// The twelve languages that the API documents.
pub open spec fn is_documented_language(t: Seq<char>) -> bool {
    ||| eq_ignoring_ascii_case(t, "en"@)
    ||| eq_ignoring_ascii_case(t, "de"@)
    ||| eq_ignoring_ascii_case(t, "ru"@)
    ||| eq_ignoring_ascii_case(t, "ja"@)
    ||| eq_ignoring_ascii_case(t, "fr"@)
    ||| eq_ignoring_ascii_case(t, "cn"@)
    ||| eq_ignoring_ascii_case(t, "es"@)
    ||| eq_ignoring_ascii_case(t, "cs"@)
    ||| eq_ignoring_ascii_case(t, "it"@)
    ||| eq_ignoring_ascii_case(t, "ko"@)
    ||| eq_ignoring_ascii_case(t, "fa"@)
    ||| eq_ignoring_ascii_case(t, "pt"@)
}

proof fn lemma_reveal_language_codes()
    ensures
        "en"@ == seq!['e', 'n'],
        "de"@ == seq!['d', 'e'],
        "ru"@ == seq!['r', 'u'],
        "ja"@ == seq!['j', 'a'],
        "fr"@ == seq!['f', 'r'],
        "cn"@ == seq!['c', 'n'],
        "es"@ == seq!['e', 's'],
        "cs"@ == seq!['c', 's'],
        "it"@ == seq!['i', 't'],
        "ko"@ == seq!['k', 'o'],
        "fa"@ == seq!['f', 'a'],
        "pt"@ == seq!['p', 't'],
{
    reveal_strlit("en");
    reveal_strlit("de");
    reveal_strlit("ru");
    reveal_strlit("ja");
    reveal_strlit("fr");
    reveal_strlit("cn");
    reveal_strlit("es");
    reveal_strlit("cs");
    reveal_strlit("it");
    reveal_strlit("ko");
    reveal_strlit("fa");
    reveal_strlit("pt");
    assert("en"@ =~= seq!['e', 'n']);
    assert("de"@ =~= seq!['d', 'e']);
    assert("ru"@ =~= seq!['r', 'u']);
    assert("ja"@ =~= seq!['j', 'a']);
    assert("fr"@ =~= seq!['f', 'r']);
    assert("cn"@ =~= seq!['c', 'n']);
    assert("es"@ =~= seq!['e', 's']);
    assert("cs"@ =~= seq!['c', 's']);
    assert("it"@ =~= seq!['i', 't']);
    assert("ko"@ =~= seq!['k', 'o']);
    assert("fa"@ =~= seq!['f', 'a']);
    assert("pt"@ =~= seq!['p', 't']);
}

/// A language passes exactly when, trimmed, it is one of the twelve
/// documented codes in any ASCII case; any other text is refused.
pub proof fn law_documented_languages(lang: String)
    ensures
        language_error(Some(lang)) is None <==> is_documented_language(trim(lang@)),
        !is_documented_language(trim(lang@)) ==> language_error(Some(lang)) is Some,
{
    lemma_reveal_language_codes();
    let t = trim(lang@);
    if t.len() == 2 {
        assert(folded(t[0]) == folded(t[0]));
        if is_documented_language(t) {
            assert(t.len() > 0);
        }
    }
}

/// A single lookup whose only option is a documented language passes every
/// request rule.
pub proof fn law_language_only_request_passes(r: LookupIpGeolocationRequest)
    requires
        r.ip is None,
        r.lang matches Some(l) && is_documented_language(trim(l@)),
        r.include_modules@.len() == 0,
        r.fields@.len() == 0,
        r.excludes@.len() == 0,
        r.user_agent is None,
        r.headers.entries().len() == 0,
    ensures
        lookup_request_error(r) is None,
{
    law_documented_languages(r.lang->0);
}

proof fn lemma_trimmed_parts_not_empty(values: Seq<String>)
    ensures
        forall|i: int| 0 <= i < trimmed_parts(values).len() ==> #[trigger] trimmed_parts(values)[i].len() > 0,
    decreases values.len(),
{
    if values.len() > 0 {
        lemma_trimmed_parts_not_empty(values.drop_last());
        let rest = trimmed_parts(values.drop_last());
        let t = trim(values.last()@);
        if t.len() > 0 {
            assert forall|i: int| 0 <= i < rest.push(t).len() implies #[trigger] rest.push(t)[i].len()
                > 0 by {
                if i < rest.len() {
                    assert(rest.push(t)[i] == rest[i]);
                }
            }
        }
    }
}

proof fn lemma_joined_empty(parts: Seq<Seq<char>>)
    requires
        forall|i: int| 0 <= i < parts.len() ==> #[trigger] parts[i].len() > 0,
    ensures
        joined(parts, ","@).len() == 0 <==> parts.len() == 0,
    decreases parts.len(),
{
    if parts.len() > 1 {
        assert(parts.last() == parts[parts.len() - 1]);
    } else if parts.len() == 1 {
        assert(parts[0].len() > 0);
    }
}

/// Joining the trimmed list values: a blank value adds nothing; any other
/// value adds its trimmed text, after a comma where something came before.
pub proof fn law_join_trimmed_push(values: Seq<String>, v: String)
    ensures
        joined_trimmed(Seq::empty()) is None,
        trim(v@).len() == 0 ==> joined_trimmed(values.push(v)) == joined_trimmed(values),
        trim(v@).len() > 0 ==> joined_trimmed(values.push(v)) == match joined_trimmed(values) {
            Some(j) => Some(j + ","@ + trim(v@)),
            None => Some(trim(v@)),
        },
{
    let w = values.push(v);
    assert(w.drop_last() =~= values);
    assert(w.last() == v);
    let rest = trimmed_parts(values);
    lemma_trimmed_parts_not_empty(values);
    lemma_joined_empty(rest);
    if trim(v@).len() > 0 {
        let parts = rest.push(trim(v@));
        assert(parts.drop_last() =~= rest);
        assert(forall|i: int| 0 <= i < parts.len() ==> #[trigger] parts[i].len() > 0);
        lemma_joined_empty(parts);
        if rest.len() == 0 {
            assert(joined(parts, ","@) == parts[0]);
        }
    }
    assert(trimmed_parts(Seq::<String>::empty()).len() == 0);
}

/// Non-blank excludes go out, trimmed and joined by commas, as the query pair
/// `excludes` of both kinds of lookup, right before the closing `output`
/// pair and, where fields are asked for too, right after the `fields` pair.
pub proof fn law_excludes_in_query(
    config: IpGeolocationClientConfig,
    request: LookupIpGeolocationRequest,
    bulk: BulkLookupIpGeolocationRequest,
)
    ensures
        joined_trimmed(request.excludes@) matches Some(j) ==> {
            let q = lookup_query(config, request);
            &&& q.len() >= 2
            &&& q[q.len() - 2] == ("excludes"@, j)
            &&& q[q.len() - 1] == ("output"@, format_name(request.output))
            &&& joined_trimmed(request.fields@) matches Some(f) ==> q[q.len() - 3] == ("fields"@, f)
        },
        joined_trimmed(bulk.excludes@) matches Some(j) ==> {
            let q = bulk_query(config, bulk);
            &&& q.len() >= 2
            &&& q[q.len() - 2] == ("excludes"@, j)
            &&& q[q.len() - 1] == ("output"@, format_name(bulk.output))
            &&& joined_trimmed(bulk.fields@) matches Some(f) ==> q[q.len() - 3] == ("fields"@, f)
        },
        joined_trimmed(request.excludes@) is None ==> {
            let q = lookup_query(config, request);
            q[q.len() - 1] == ("output"@, format_name(request.output))
        },
{
}

proof fn lemma_trimmed_headers_lookup(es: Seq<(Seq<char>, Seq<char>)>, i: int)
    requires
        0 <= i < es.len(),
        !eq_ignoring_ascii_case(trim(es[i].0), "User-Agent"@),
        forall|j: int| i < j < es.len() ==> trim(#[trigger] es[j].0) != trim(es[i].0),
    ensures
        entry_lookup(trimmed_headers(es), trim(es[i].0)) == Some(trim(es[i].1)),
    decreases es.len(),
{
    let last = es.len() - 1;
    let rest = es.drop_last();
    if i == last {
        assert(es.last() == es[i]);
        law_lookup_after_insert(trimmed_headers(rest), trim(es[i].0), trim(es[i].1));
    } else {
        assert forall|j: int| i < j < rest.len() implies trim(#[trigger] rest[j].0) != trim(
            rest[i].0,
        ) by {
            assert(rest[j] == es[j]);
        }
        assert(rest[i] == es[i]);
        lemma_trimmed_headers_lookup(rest, i);
        assert(es.last() == es[last]);
        if !is_user_agent_name(es.last().0) {
            law_lookup_other_after_insert(
                trimmed_headers(rest),
                trim(es.last().0),
                trim(es.last().1),
                trim(es[i].0),
            );
        }
    }
}

/// Every request header goes out under its trimmed name with its trimmed
/// value, unless its name is `User-Agent` in some letter case, or a header
/// that the client sets itself (`Accept`, and `Origin` or `Content-Type`
/// where it sets them), or a later header has the same trimmed name.
pub proof fn law_request_headers_go_out(
    origin: Option<Seq<char>>,
    es: Seq<(Seq<char>, Seq<char>)>,
    user_agent: Option<Seq<char>>,
    output: ResponseFormat,
    with_content_type: bool,
    i: int,
)
    requires
        0 <= i < es.len(),
        !eq_ignoring_ascii_case(trim(es[i].0), "User-Agent"@),
        trim(es[i].0) != "Accept"@,
        normalized(origin) is Some ==> trim(es[i].0) != "Origin"@,
        with_content_type ==> trim(es[i].0) != "Content-Type"@,
        forall|j: int| i < j < es.len() ==> trim(#[trigger] es[j].0) != trim(es[i].0),
    ensures
        entry_lookup(
            outgoing_headers(origin, es, user_agent, output, with_content_type),
            trim(es[i].0),
        ) == Some(trim(es[i].1)),
{
    let t = trim(es[i].0);
    lemma_trimmed_headers_lookup(es, i);
    assert(eq_ignoring_ascii_case("User-Agent"@, "User-Agent"@));
    assert(t != "User-Agent"@);
    let h0 = trimmed_headers(es);
    let h1 = entry_insert_user_agent(es, user_agent);
    law_lookup_other_after_insert(h0, "User-Agent"@, resolved_user_agent(user_agent, es), t);
    let h2 = crate::str_map::entry_insert(h1, "Accept"@, accept_value(output));
    law_lookup_other_after_insert(h1, "Accept"@, accept_value(output), t);
    let h3 = match normalized(origin) {
        Some(o) => crate::str_map::entry_insert(h2, "Origin"@, o),
        None => h2,
    };
    if let Some(o) = normalized(origin) {
        law_lookup_other_after_insert(h2, "Origin"@, o, t);
    }
    if with_content_type {
        law_lookup_other_after_insert(h3, "Content-Type"@, "application/json"@, t);
    }
}

/// An origin written with a host right after `http://` or `https://` (no
/// further `/` first), which the URL parser reads as an `http` or `https` URL
/// with a host that is not blank, path `/`, and no userinfo, query or
/// fragment, is a valid request origin, whichever of the two schemes it uses.
pub proof fn law_http_and_https_origins_pass(origin: Seq<char>, p: UrlPartsView)
    requires
        url_parse_result(trim(origin)) == Some(p),
        p.scheme == "http"@ || p.scheme == "https"@,
        p.host matches Some(h) && !is_blank(h),
        p.path == "/"@,
        p.username.len() == 0,
        p.password is None,
        p.query is None,
        p.fragment is None,
        trim(origin).len() >= 8 && trim(origin).subrange(0, 8) == "https://"@ ==> trim(origin).len()
            > 8 && trim(origin)[8] != '/',
        trim(origin).len() >= 7 && trim(origin).subrange(0, 7) == "http://"@ ==> trim(origin).len()
            > 7 && trim(origin)[7] != '/',
    ensures
        request_origin_error(origin) is None,
{
    reveal_strlit("https://");
    reveal_strlit("http://");
    let t = trim(origin);
    if has_prefix(t, "https://"@) {
        assert(t.subrange(0, 8) == "https://"@);
        let w = t.subrange(8, t.len() as int);
        assert(w[0] == t[8]);
    } else if has_prefix(t, "http://"@) {
        assert(t.subrange(0, 7) == "http://"@);
        let w = t.subrange(7, t.len() as int);
        assert(w[0] == t[7]);
    }
}

/// A configured request origin of that kind, not blank and without CR or LF,
/// passes every request origin rule.
pub proof fn law_origin_field_passes(origin: String, p: UrlPartsView)
    requires
        !is_blank(origin@),
        !has_line_break(origin@),
        url_parse_result(trim(origin@)) == Some(p),
        p.scheme == "http"@ || p.scheme == "https"@,
        p.host matches Some(h) && !is_blank(h),
        p.path == "/"@,
        p.username.len() == 0,
        p.password is None,
        p.query is None,
        p.fragment is None,
        trim(origin@).len() >= 8 && trim(origin@).subrange(0, 8) == "https://"@ ==> trim(
            origin@,
        ).len() > 8 && trim(origin@)[8] != '/',
        trim(origin@).len() >= 7 && trim(origin@).subrange(0, 7) == "http://"@ ==> trim(
            origin@,
        ).len() > 7 && trim(origin@)[7] != '/',
    ensures
        origin_field_error(Some(origin)) is None,
{
    law_http_and_https_origins_pass(origin@, p);
}

/// Every option that a single lookup sets goes out in its query: the
/// trimmed IP, the trimmed language, and the non-blank module names, fields
/// and excludes, each list trimmed and joined by commas; the query ends with
/// the output format.
pub proof fn law_lookup_query_carries_options(
    config: IpGeolocationClientConfig,
    request: LookupIpGeolocationRequest,
)
    ensures
        normalized(opt_chars(request.ip)) matches Some(ip) ==> lookup_query(config, request).contains(
            ("ip"@, ip),
        ),
        normalized(opt_chars(request.lang)) matches Some(l) ==> lookup_query(
            config,
            request,
        ).contains(("lang"@, l)),
        joined_trimmed(request.include_modules@) matches Some(j) ==> lookup_query(
            config,
            request,
        ).contains(("\x69nclude"@, j)),
        joined_trimmed(request.fields@) matches Some(j) ==> lookup_query(config, request).contains(
            ("fields"@, j),
        ),
        joined_trimmed(request.excludes@) matches Some(j) ==> lookup_query(
            config,
            request,
        ).contains(("excludes"@, j)),
        lookup_query(config, request).last() == ("output"@, format_name(request.output)),
{
    let a = opt_pair("apiKey"@, normalized(opt_chars(config.api_key)));
    let b = opt_pair("ip"@, normalized(opt_chars(request.ip)));
    let l = opt_pair("lang"@, normalized(opt_chars(request.lang)));
    let m = opt_pair("\x69nclude"@, joined_trimmed(request.include_modules@));
    let f = opt_pair("fields"@, joined_trimmed(request.fields@));
    let e = opt_pair("excludes"@, joined_trimmed(request.excludes@));
    let o = seq![("output"@, format_name(request.output))];
    let p = l + m + f + e + o;
    assert(lookup_query(config, request) == a + b + p);
    lemma_first_in(b);
    lemma_first_in(l);
    lemma_first_in(m);
    lemma_first_in(f);
    lemma_first_in(e);
    lemma_in_right(a, b);
    lemma_in_left(a + b, p);
    lemma_in_left(l, m);
    lemma_in_right(l, m);
    lemma_in_left(l + m, f);
    lemma_in_right(l + m, f);
    lemma_in_left(l + m + f, e);
    lemma_in_right(l + m + f, e);
    lemma_in_left(l + m + f + e, o);
    lemma_in_right(a + b, p);
}

proof fn lemma_first_in(y: Seq<(Seq<char>, Seq<char>)>)
    ensures
        y.len() > 0 ==> y.contains(y[0]),
{
    if y.len() > 0 {
        assert(y[0] == y[0]);
    }
}

proof fn lemma_in_left(x: Seq<(Seq<char>, Seq<char>)>, y: Seq<(Seq<char>, Seq<char>)>)
    ensures
        forall|v: (Seq<char>, Seq<char>)| #[trigger] x.contains(v) ==> (x + y).contains(v),
{
    assert forall|v: (Seq<char>, Seq<char>)| #[trigger] x.contains(v) implies (x + y).contains(v) by {
        let i = choose|i: int| 0 <= i < x.len() && x[i] == v;
        assert((x + y)[i] == v);
    }
}

proof fn lemma_in_right(x: Seq<(Seq<char>, Seq<char>)>, y: Seq<(Seq<char>, Seq<char>)>)
    ensures
        forall|v: (Seq<char>, Seq<char>)| #[trigger] y.contains(v) ==> (x + y).contains(v),
{
    assert forall|v: (Seq<char>, Seq<char>)| #[trigger] y.contains(v) implies (x + y).contains(v) by {
        let i = choose|i: int| 0 <= i < y.len() && y[i] == v;
        assert((x + y)[x.len() + i] == v);
    }
}

/// A bulk request carries 1 to 50000 IPs: an empty list and a list of more
/// than 50000 are refused with their own messages, and a list within the
/// bounds is judged by its values and options alone.
pub proof fn law_bulk_size_bounds(r: BulkLookupIpGeolocationRequest)
    ensures
        r.ips@.len() == 0 ==> bulk_request_error(r) == Some(
            "ips must contain at least one IP address or domain"@,
        ),
        r.ips@.len() > 50000 ==> bulk_request_error(r) == Some(
            "ips must not contain more than 50000 entries"@,
        ),
        1 <= r.ips@.len() <= 50000 ==> bulk_request_error(r) == first_error(
            values_error(r.ips@, "ips"@),
            options_error(
                r.lang,
                r.include_modules@,
                r.fields@,
                r.excludes@,
                r.user_agent,
                r.headers.entries(),
            ),
        ),
{
}

/// A configuration that passes has a usable shape: a set API key is not blank
/// and holds no line break, the base URL is not blank, and both timeouts are
/// above zero.
pub proof fn law_valid_config_shape(c: IpGeolocationClientConfig)
    requires
        config_error(c) is None,
    ensures
        c.api_key matches Some(k) ==> !is_blank(k@) && !has_line_break(k@),
        c.request_origin matches Some(o) ==> !is_blank(o@) && !has_line_break(o@),
        !is_blank(c.base_url@),
        c.connect_timeout_ms > 0,
        c.request_timeout_ms > 0,
{
}

/// A single lookup request that passes has a usable shape: a set IP or user
/// agent is not blank and holds no line break, no list entry is blank, and
/// every header has a name and a value that are not blank and hold no line
/// break.
pub proof fn law_valid_lookup_request_shape(r: LookupIpGeolocationRequest)
    requires
        lookup_request_error(r) is None,
    ensures
        r.ip matches Some(ip) ==> !is_blank(ip@) && !has_line_break(ip@),
        r.user_agent matches Some(u) ==> !is_blank(u@) && !has_line_break(u@),
        forall|i: int| 0 <= i < r.include_modules@.len() ==> !is_blank(#[trigger] r.include_modules@[i]@),
        forall|i: int| 0 <= i < r.fields@.len() ==> !is_blank(#[trigger] r.fields@[i]@),
        forall|i: int| 0 <= i < r.excludes@.len() ==> !is_blank(#[trigger] r.excludes@[i]@),
        forall|i: int|
            0 <= i < r.headers.entries().len() ==> !is_blank(#[trigger] r.headers.entries()[i].0)
                && !is_blank(r.headers.entries()[i].1@) && !has_line_break(r.headers.entries()[i].0)
                && !has_line_break(r.headers.entries()[i].1@),
{
    lemma_headers_error_none(r.headers.entries());
}

proof fn lemma_headers_error_none(es: Seq<(Seq<char>, String)>)
    ensures
        headers_error(es) is None ==> forall|i: int|
            0 <= i < es.len() ==> !is_blank(#[trigger] es[i].0) && !is_blank(es[i].1@)
                && !has_line_break(es[i].0) && !has_line_break(es[i].1@),
    decreases es.len(),
{
    if es.len() > 0 {
        lemma_headers_error_none(es.drop_first());
        if headers_error(es) is None {
            assert forall|i: int| 0 <= i < es.len() implies !is_blank(#[trigger] es[i].0) && !is_blank(
                es[i].1@,
            ) && !has_line_break(es[i].0) && !has_line_break(es[i].1@) by {
                if i > 0 {
                    assert(es[i] == es.drop_first()[i - 1]);
                }
            }
        }
    }
}

/// The message of an API error: a blank body gives the status's default text;
/// a JSON body gives its string `message` member first, else the string
/// `message` of its `error` member, else the trimmed body; any other body
/// gives itself, trimmed.
pub proof fn law_api_message_order(status_code: u16, body: Seq<char>)
    ensures
        is_blank(body) ==> api_message(status_code, body) == default_api_message(status_code),
        !is_blank(body) && !json_text_parses(trim(body)) ==> api_message(status_code, body) == trim(
            body,
        ),
        !is_blank(body) && json_text_parses(trim(body)) ==> {
            let v = json_value_of(trim(body));
            &&& member_string(v, "message"@) matches Some(m) ==> api_message(status_code, body) == m
            &&& member_string(v, "message"@) is None ==> (nested_member_string(
                v,
                "error"@,
                "message"@,
            ) matches Some(m) ==> api_message(status_code, body) == m)
            &&& member_string(v, "message"@) is None && nested_member_string(
                v,
                "error"@,
                "message"@,
            ) is None ==> api_message(status_code, body) == trim(body)
        },
{
}

} // verus!
