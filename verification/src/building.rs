//! The pieces of an outgoing request: normalized values, the query, the
//! headers, the URL and the bulk body.

use vstd::prelude::*;
use vstd::string::*;
use crate::errors::{is_validation_error, IpGeolocationError};
use crate::json::{json_array_of_strings, json_error_text, json_string_array, string_views};
use crate::response_format::{format_name, ResponseFormat};
use crate::str_map::{entry_insert, lemma_text_entries_insert, text_entries, StrMap};
use crate::text::{concat, eq_ignore_ascii_case, eq_ignoring_ascii_case, trim, trim_str};
use crate::url_parts::{
    append_query_pairs, form_pairs, opt_chars, pair_chars, url_parse_result, url_with_query_pairs,
};
use crate::version::VERSION;

verus! {

/// Where the endpoint URL parses without query or fragment, the request URL
/// is its serialization, `?` and the form-urlencoded pairs.
pub open spec fn url_query_appended(
    endpoint: Seq<char>,
    pairs: Seq<(Seq<char>, Seq<char>)>,
    url: Seq<char>,
) -> bool {
    url_parse_result(endpoint)->0.query is None && url_parse_result(endpoint)->0.fragment is None
        ==> url == url_parse_result(endpoint)->0.serialization + seq!['?'] + form_pairs(pairs)
}

/// An optional value, trimmed, where something is left after trimming.
pub open spec fn normalized(o: Option<Seq<char>>) -> Option<Seq<char>> {
    match o {
        Some(v) => if trim(v).len() > 0 {
            Some(trim(v))
        } else {
            None
        },
        None => None,
    }
}

/// The trimmed values that are not blank, in order.
pub open spec fn trimmed_parts(values: Seq<String>) -> Seq<Seq<char>>
    decreases values.len(),
{
    if values.len() == 0 {
        Seq::empty()
    } else {
        let rest = trimmed_parts(values.drop_last());
        let t = trim(values.last()@);
        if t.len() > 0 {
            rest.push(t)
        } else {
            rest
        }
    }
}

/// The parts with `sep` between each two of them.
pub open spec fn joined(parts: Seq<Seq<char>>, sep: Seq<char>) -> Seq<char>
    decreases parts.len(),
{
    if parts.len() == 0 {
        Seq::empty()
    } else if parts.len() == 1 {
        parts[0]
    } else {
        joined(parts.drop_last(), sep) + sep + parts.last()
    }
}

/// The non-blank values, trimmed and joined by commas; `None` where that is empty.
pub open spec fn joined_trimmed(values: Seq<String>) -> Option<Seq<char>> {
    let j = joined(trimmed_parts(values), ","@);
    if j.len() == 0 {
        None
    } else {
        Some(j)
    }
}

/// A query pair, where the value is there.
pub open spec fn opt_pair(name: Seq<char>, value: Option<Seq<char>>) -> Seq<(Seq<char>, Seq<char>)> {
    match value {
        Some(v) => seq![(name, v)],
        None => Seq::empty(),
    }
}

/// The query pairs that both kinds of lookup send after the API key (and the IP).
pub open spec fn option_pairs(
    lang: Option<String>,
    include_modules: Seq<String>,
    fields: Seq<String>,
    excludes: Seq<String>,
    output: ResponseFormat,
) -> Seq<(Seq<char>, Seq<char>)> {
    opt_pair("lang"@, normalized(opt_chars(lang))) + opt_pair(
        "\x69nclude"@,
        joined_trimmed(include_modules),
    ) + opt_pair("fields"@, joined_trimmed(fields)) + opt_pair(
        "excludes"@,
        joined_trimmed(excludes),
    ) + seq![("output"@, format_name(output))]
}

/// `base_url` without the `/` chars at its end.
pub open spec fn without_trailing_slashes(s: Seq<char>) -> Seq<char>
    decreases s.len(),
{
    if s.len() > 0 && s.last() == '/' {
        without_trailing_slashes(s.drop_last())
    } else {
        s
    }
}

/// The IPs of a bulk request, each trimmed, in order, duplicates kept.
pub open spec fn trimmed_ips(ips: Seq<String>) -> Seq<Seq<char>> {
    ips.map_values(|ip: String| trim(ip@))
}

/// The text that the bulk endpoint receives: `{"ips":[...]}` with every IP
/// trimmed, in order, duplicates kept.
pub open spec fn bulk_body_text(ips: Seq<String>) -> Seq<char> {
    "{\"ips\":"@ + json_string_array(trimmed_ips(ips)) + "}"@
}

/// The user agent that the SDK sends when the request names none.
pub open spec fn default_user_agent_text() -> Seq<char> {
    "ipgeolocation-rust-sdk/"@ + VERSION@
}

/// The first header, in key order, whose name is `User-Agent` in any ASCII
/// case once trimmed, and whose value is not blank; the value, trimmed.
pub open spec fn header_user_agent(es: Seq<(Seq<char>, Seq<char>)>) -> Option<Seq<char>>
    decreases es.len(),
{
    if es.len() == 0 {
        None
    } else if is_user_agent_name(es[0].0) && normalized(Some(es[0].1)) is Some {
        normalized(Some(es[0].1))
    } else {
        header_user_agent(es.drop_first())
    }
}

/// The request's own user agent wins, then a `User-Agent` header, then the default.
pub open spec fn resolved_user_agent(
    user_agent: Option<Seq<char>>,
    es: Seq<(Seq<char>, Seq<char>)>,
) -> Seq<char> {
    match normalized(user_agent) {
        Some(u) => u,
        None => match header_user_agent(es) {
            Some(u) => u,
            None => default_user_agent_text(),
        },
    }
}

/// A header name that, trimmed, is `User-Agent` in any ASCII case.
pub open spec fn is_user_agent_name(name: Seq<char>) -> bool {
    eq_ignoring_ascii_case(trim(name), "User-Agent"@)
}

/// The request headers with names and values trimmed, inserted in key order;
/// a `User-Agent` header, in any ASCII case, is left out, since the resolved
/// user agent takes its place.
pub open spec fn trimmed_headers(es: Seq<(Seq<char>, Seq<char>)>) -> Seq<(Seq<char>, Seq<char>)>
    decreases es.len(),
{
    if es.len() == 0 {
        Seq::empty()
    } else if is_user_agent_name(es.last().0) {
        trimmed_headers(es.drop_last())
    } else {
        entry_insert(trimmed_headers(es.drop_last()), trim(es.last().0), trim(es.last().1))
    }
}

pub open spec fn accept_value(output: ResponseFormat) -> Seq<char> {
    if output == ResponseFormat::Xml {
        "application/xml"@
    } else {
        "application/json"@
    }
}

/// Every header named `User-Agent` in any ASCII case carries `u`.
pub open spec fn user_agent_headers_carry(hs: Seq<(Seq<char>, Seq<char>)>, u: Seq<char>) -> bool {
    forall|i: int|
        0 <= i < hs.len() && eq_ignoring_ascii_case(#[trigger] hs[i].0, "User-Agent"@) ==> hs[i].1
            == u
}

/// The headers that go out: the request's own, trimmed, then `User-Agent`
/// (in place of any the request named),
/// `Accept`, `Origin` where an origin is configured, and `Content-Type` for a body.
pub open spec fn outgoing_headers(
    origin: Option<Seq<char>>,
    es: Seq<(Seq<char>, Seq<char>)>,
    user_agent: Option<Seq<char>>,
    output: ResponseFormat,
    with_content_type: bool,
) -> Seq<(Seq<char>, Seq<char>)> {
    let h1 = entry_insert(trimmed_headers(es), "User-Agent"@, resolved_user_agent(user_agent, es));
    let h2 = entry_insert(h1, "Accept"@, accept_value(output));
    let h3 = match normalized(origin) {
        Some(o) => entry_insert(h2, "Origin"@, o),
        None => h2,
    };
    if with_content_type {
        entry_insert(h3, "Content-Type"@, "application/json"@)
    } else {
        h3
    }
}

/// `value.map(str::trim).filter(|v| !v.is_empty()).map(str::to_string)`.
pub fn normalize_optional_string(value: &Option<String>) -> (r: Option<String>)
    ensures
        opt_chars(r) == normalized(opt_chars(*value)),
{
    match value {
        Some(v) => {
            let t = trim_str(v.as_str());
            if t.is_empty() {
                None
            } else {
                Some(t.to_owned())
            }
        },
        None => None,
    }
}

/// The non-blank values, trimmed and joined by commas; `None` where that is empty.
pub fn join_trimmed(values: &Vec<String>) -> (r: Option<String>)
    ensures
        opt_chars(r) == joined_trimmed(values@),
{
    let n = values.len();
    let mut s = String::new();
    let mut count: usize = 0;
    let mut i: usize = 0;
    while i < n
        invariant
            n == values@.len(),
            i <= n,
            count == trimmed_parts(values@.subrange(0, i as int)).len(),
            count <= i,
            s@ == joined(trimmed_parts(values@.subrange(0, i as int)), ","@),
        decreases n - i,
    {
        let ghost before = values@.subrange(0, i as int);
        assert(values@.subrange(0, i + 1).drop_last() =~= before);
        let t = trim_str(values[i].as_str());
        let ghost rest = trimmed_parts(before);
        assert(values@.subrange(0, i + 1).last() == values@[i as int]);
        if !t.is_empty() {
            if count > 0 {
                s.append(",");
            }
            s.append(t);
            count = count + 1;
            proof {
                assert(rest.push(t@).drop_last() =~= rest);
                if rest.len() == 0 {
                    assert(s@ =~= t@);
                }
            }
        }
        i = i + 1;
    }
    assert(values@.subrange(0, n as int) =~= values@);
    if s.as_str().is_empty() {
        None
    } else {
        Some(s)
    }
}

/// The JSON body of a bulk request: the trimmed IPs under `ips`.
pub fn bulk_body(ips: &Vec<String>) -> (r: Result<Vec<u8>, IpGeolocationError>)
    ensures
        r matches Ok(bytes) && bytes@ == vstd::utf8::encode_utf8(bulk_body_text(ips@)),
{
    let n = ips.len();
    let mut trimmed: Vec<String> = Vec::new();
    let mut i: usize = 0;
    while i < n
        invariant
            n == ips@.len(),
            i <= n,
            trimmed@.len() == i,
            forall|j: int| 0 <= j < i ==> #[trigger] trimmed@[j]@ == trim(ips@[j]@),
        decreases n - i,
    {
        trimmed.push(trim_str(ips[i].as_str()).to_owned());
        i = i + 1;
    }
    assert(string_views(trimmed@) =~= trimmed_ips(ips@));
    let array = match json_array_of_strings(&trimmed) {
        Ok(text) => text,
        Err(error) => {
            return Err(
                IpGeolocationError::serialization(
                    "failed to serialize bulk lookup request body".to_owned(),
                    json_error_text(&error),
                ),
            );
        },
    };
    let mut s = "{\"ips\":".to_owned();
    s.append(array.as_str());
    s.append("}");
    Ok(s.as_str().as_bytes_vec())
}

/// `base_url.trim_end_matches('/')`.
fn strip_trailing_slashes(s: &str) -> (r: &str)
    ensures
        r@ == without_trailing_slashes(s@),
{
    let mut end = s.unicode_len();
    assert(s@.subrange(0, end as int) =~= s@);
    while end > 0
        invariant
            end <= s@.len(),
            without_trailing_slashes(s@) == without_trailing_slashes(s@.subrange(0, end as int)),
        ensures
            end <= s@.len(),
            without_trailing_slashes(s@) == without_trailing_slashes(s@.subrange(0, end as int)),
            end == 0 || s@[end - 1] != '/',
        decreases end,
    {
        if s.get_char(end - 1) != '/' {
            break;
        }
        assert(s@.subrange(0, end as int).drop_last() =~= s@.subrange(0, end - 1));
        end = end - 1;
    }
    assert(end > 0 ==> s@.subrange(0, end as int).last() == s@[end - 1]);
    s.substring_char(0, end)
}

/// The URL of an endpoint: the base URL without trailing `/`, the path, and the
/// query pairs appended by the URL serializer.
pub fn build_url(base_url: &str, path: &str, pairs: &Vec<(String, String)>) -> (r: Result<
    String,
    IpGeolocationError,
>)
    ensures
        r is Ok <==> url_parse_result(without_trailing_slashes(base_url@) + path@) is Some,
        r matches Ok(u) ==> u@ == url_with_query_pairs(
            without_trailing_slashes(base_url@) + path@,
            pair_chars(pairs@),
        ),
        r matches Ok(u) ==> url_query_appended(
            without_trailing_slashes(base_url@) + path@,
            pair_chars(pairs@),
            u@,
        ),
        r matches Err(e) ==> exists|t: Seq<char>|
            is_validation_error(e, "invalid base_url after normalization: "@ + t),
{
    let normalized_base = strip_trailing_slashes(base_url);
    let full = concat(normalized_base, path);
    match append_query_pairs(full.as_str(), pairs) {
        Ok(url) => Ok(url),
        Err(text) => {
            let message = concat("invalid base_url after normalization: ", text.as_str());
            Err(IpGeolocationError::validation_message(message))
        },
    }
}

/// Appends `(name, value)` where the value is there.
pub fn push_optional_pair(pairs: &mut Vec<(String, String)>, name: &str, value: Option<String>)
    ensures
        pair_chars(final(pairs)@) == pair_chars(old(pairs)@) + opt_pair(name@, opt_chars(value)),
{
    let ghost before = pairs@;
    match value {
        Some(v) => {
            pairs.push((name.to_owned(), v));
            assert(pair_chars(pairs@) =~= pair_chars(before) + opt_pair(name@, opt_chars(value)));
        },
        None => {
            assert(pair_chars(pairs@) =~= pair_chars(before) + opt_pair(name@, opt_chars(value)));
        },
    }
}

/// Appends the pairs that both kinds of lookup send after the API key (and the IP).
pub fn push_option_pairs(
    pairs: &mut Vec<(String, String)>,
    lang: &Option<String>,
    include_modules: &Vec<String>,
    fields: &Vec<String>,
    excludes: &Vec<String>,
    output: ResponseFormat,
)
    ensures
        pair_chars(final(pairs)@) == pair_chars(old(pairs)@) + option_pairs(
            *lang,
            include_modules@,
            fields@,
            excludes@,
            output,
        ),
{
    let ghost start = pair_chars(pairs@);
    push_optional_pair(pairs, "lang", normalize_optional_string(lang));
    push_optional_pair(pairs, "\x69nclude", join_trimmed(include_modules));
    push_optional_pair(pairs, "fields", join_trimmed(fields));
    push_optional_pair(pairs, "excludes", join_trimmed(excludes));
    let ghost before = pairs@;
    pairs.push(("output".to_owned(), output.as_str().to_owned()));
    assert(pair_chars(pairs@) =~= pair_chars(before) + seq![("output"@, format_name(output))]);
    assert(pair_chars(pairs@) =~= start + option_pairs(
        *lang,
        include_modules@,
        fields@,
        excludes@,
        output,
    ));
}

/// The user agent that the SDK sends by default.
pub fn default_user_agent_string() -> (s: String)
    ensures
        s@ == default_user_agent_text(),
{
    concat("ipgeolocation-rust-sdk/", VERSION)
}

/// The request's own user agent wins, then a `User-Agent` header, then the default.
pub fn resolve_user_agent(request_user_agent: &Option<String>, headers: &StrMap<String>) -> (r:
    String)
    ensures
        r@ == resolved_user_agent(opt_chars(*request_user_agent), text_entries(headers.entries())),
{
    let own = normalize_optional_string(request_user_agent);
    if let Some(user_agent) = own {
        return user_agent;
    }
    assert(normalized(opt_chars(*request_user_agent)) is None);
    let ghost es = text_entries(headers.entries());
    let n = headers.len();
    let mut i: usize = 0;
    assert(es.subrange(0, n as int) =~= es);
    while i < n
        invariant
            n == es.len(),
            es == text_entries(headers.entries()),
            i <= n,
            header_user_agent(es) == header_user_agent(es.subrange(i as int, n as int)),
            normalized(opt_chars(*request_user_agent)) is None,
        decreases n - i,
    {
        let ghost rest = es.subrange(i as int, n as int);
        assert(rest.drop_first() =~= es.subrange(i + 1, n as int));
        assert(rest[0] == es[i as int]);
        let name = headers.key_at(i);
        assert(es[i as int].0 == name@);
        if eq_ignore_ascii_case(trim_str(name.as_str()), "User-Agent") {
            let value = headers.value_at(i);
            assert(es[i as int].1 == value@);
            let candidate = Some(value.clone());
            if let Some(user_agent) = normalize_optional_string(&candidate) {
                assert(rest.len() > 0);
                assert(header_user_agent(rest) == Some(user_agent@));
                return user_agent;
            }
        }
        i = i + 1;
    }
    default_user_agent_string()
}

/// The outgoing headers of a request.
pub fn build_headers(
    request_origin: &Option<String>,
    request_headers: &StrMap<String>,
    request_user_agent: &Option<String>,
    output: ResponseFormat,
    include_content_type: bool,
) -> (h: StrMap<String>)
    ensures
        text_entries(h.entries()) == outgoing_headers(
            opt_chars(*request_origin),
            text_entries(request_headers.entries()),
            opt_chars(*request_user_agent),
            output,
            include_content_type,
        ),
{
    let ghost es = text_entries(request_headers.entries());
    let mut headers: StrMap<String> = StrMap::new();
    let n = request_headers.len();
    let mut i: usize = 0;
    assert(text_entries(headers.entries()) =~= trimmed_headers(es.subrange(0, 0)));
    while i < n
        invariant
            n == es.len(),
            es == text_entries(request_headers.entries()),
            i <= n,
            text_entries(headers.entries()) == trimmed_headers(es.subrange(0, i as int)),
        decreases n - i,
    {
        let name = trim_str(request_headers.key_at(i).as_str()).to_owned();
        proof {
            let part = es.subrange(0, i + 1);
            assert(part.drop_last() =~= es.subrange(0, i as int));
            assert(part.last() == es[i as int]);
        }
        if !eq_ignore_ascii_case(name.as_str(), "User-Agent") {
            let value = trim_str(request_headers.value_at(i).as_str()).to_owned();
            let ghost before = headers.entries();
            proof {
                lemma_text_entries_insert(before, name@, value);
            }
            headers.insert(name, value);
        }
        i = i + 1;
    }
    assert(es.subrange(0, n as int) =~= es);
    let user_agent = resolve_user_agent(request_user_agent, request_headers);
    proof {
        lemma_text_entries_insert(headers.entries(), "User-Agent"@, user_agent);
    }
    headers.insert("User-Agent".to_owned(), user_agent);
    let accept = if output == ResponseFormat::Xml {
        "application/xml".to_owned()
    } else {
        "application/json".to_owned()
    };
    proof {
        lemma_text_entries_insert(headers.entries(), "Accept"@, accept);
    }
    headers.insert("Accept".to_owned(), accept);
    if let Some(origin) = normalize_optional_string(request_origin) {
        proof {
            lemma_text_entries_insert(headers.entries(), "Origin"@, origin);
        }
        headers.insert("Origin".to_owned(), origin);
    }
    if include_content_type {
        let content_type = "application/json".to_owned();
        proof {
            lemma_text_entries_insert(headers.entries(), "Content-Type"@, content_type);
        }
        headers.insert("Content-Type".to_owned(), content_type);
    }
    headers
}

} // verus!
