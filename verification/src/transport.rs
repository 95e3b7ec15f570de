//! What passes between the client and the HTTP layer, and what is required of a
//! response body that the HTTP layer has read.

use vstd::prelude::*;
use vstd::utf8::{decode_utf8, valid_utf8};
use crate::config::{debug_str, str_debug_text};
use crate::errors::{
    is_serialization_error, is_transport_message, is_validation_error, IpGeolocationError,
};
use crate::str_map::{entry_insert, entry_lookup, text_entries, StrMap};
use crate::text::concat;

verus! {

/// The largest response body that the client accepts, in bytes.
pub const MAX_RESPONSE_BODY_BYTES: usize = 128 * 1024 * 1024;

#[derive(Clone, Copy, Debug, PartialEq, Eq, Structural)]
pub enum HttpMethod {
    Get,
    Post,
}

/// A request ready to be sent.
#[derive(Clone, Debug)]
pub struct HttpRequestData {
    pub method: HttpMethod,
    pub url: String,
    pub headers: StrMap<String>,
    pub body: Option<Vec<u8>>,
    pub request_timeout_ms: u64,
}

/// A response as the HTTP layer received it.
#[derive(Clone, Debug, Default)]
pub struct HttpResponseData {
    pub status_code: u16,
    pub body: String,
    pub headers: StrMap<Vec<String>>,
}

/// Sends a request and reports the response and how long the exchange took,
/// in milliseconds.
pub trait HttpTransport {
    fn send(&self, request: &HttpRequestData) -> Result<(HttpResponseData, u64), IpGeolocationError>;
}

/// A transport that can be made from the connect timeout alone.
pub trait ConnectTransport: Sized {
    fn connect(connect_timeout_ms: u64) -> Result<Self, IpGeolocationError>;
}

/// `String::from_utf8`. The contract claims what its documentation says: it
/// succeeds exactly on valid UTF-8, and the string holds the decoded chars;
/// of the error only its text is kept, and nothing is claimed of that text.
#[verifier::external_body]
fn string_from_utf8(bytes: Vec<u8>) -> (r: Result<String, String>)
    ensures
        r is Ok <==> valid_utf8(bytes@),
        r matches Ok(s) ==> s@ == decode_utf8(bytes@),
{
    String::from_utf8(bytes).map_err(|error| error.to_string())
}

/// Checks a body that was read with at most one byte more than the limit: a
/// longer body is refused, and the bytes must be UTF-8.
pub fn read_response_body(body: Vec<u8>, max_response_body_bytes: usize) -> (r: Result<
    String,
    IpGeolocationError,
>)
    ensures
        body@.len() > max_response_body_bytes ==> (r matches Err(e) && is_transport_message(
            e,
            "response body exceeded the maximum allowed size"@,
        )),
        body@.len() <= max_response_body_bytes ==> {
            &&& r is Ok <==> valid_utf8(body@)
            &&& r matches Ok(s) ==> s@ == decode_utf8(body@)
            &&& r matches Err(e) ==> is_serialization_error(
                e,
                "failed to decode response body as UTF-8"@,
            )
        },
{
    if body.len() > max_response_body_bytes {
        return Err(
            IpGeolocationError::transport_message(
                "response body exceeded the maximum allowed size".to_owned(),
            ),
        );
    }
    match string_from_utf8(body) {
        Ok(text) => Ok(text),
        Err(error) => Err(
            IpGeolocationError::serialization(
                "failed to decode response body as UTF-8".to_owned(),
                error,
            ),
        ),
    }
}

/// The error for a failed exchange: a timeout while connecting, another
/// timeout (reported under `context`), or any other transport failure.
pub fn transport_failure(
    is_timeout: bool,
    is_connect: bool,
    context: String,
    source: String,
) -> (e: IpGeolocationError)
    ensures
        is_timeout && is_connect ==> (e matches IpGeolocationError::RequestTimeout(m) && m@
            == "connect timeout exceeded"@),
        is_timeout && !is_connect ==> e == IpGeolocationError::RequestTimeout(context),
        !is_timeout ==> e == (IpGeolocationError::Transport { message: context, source: Some(source) }),
{
    if is_timeout {
        if is_connect {
            return IpGeolocationError::request_timeout("connect timeout exceeded".to_owned());
        }
        return IpGeolocationError::request_timeout(context);
    }
    IpGeolocationError::transport(context, source)
}

/// The values of a header name with one more value: an unreadable value
/// (`None`) still records the name, with no value added.
pub open spec fn with_header_value(values: Option<Vec<String>>, value: Option<String>) -> Seq<
    Seq<char>,
> {
    let old_values = match values {
        Some(v) => v@.map_values(|s: String| s@),
        None => Seq::empty(),
    };
    match value {
        Some(v) => old_values.push(v@),
        None => old_values,
    }
}

/// Records one received header value under its name, as
/// `entry(name).or_default().push(value)` does.
pub fn add_header_value(headers: &mut StrMap<Vec<String>>, name: String, value: Option<String>)
    ensures
        exists|values: Vec<String>|
            final(headers).entries() == entry_insert(old(headers).entries(), name@, values)
                && values@.map_values(|s: String| s@) == with_header_value(
                entry_lookup(old(headers).entries(), name@),
                value,
            ),
{
    let mut values: Vec<String> = Vec::new();
    let ghost before = entry_lookup(headers.entries(), name@);
    match headers.get(name.as_str()) {
        Some(existing) => {
            let n = existing.len();
            let mut i: usize = 0;
            while i < n
                invariant
                    n == existing@.len(),
                    i <= n,
                    values@.len() == i,
                    values@.map_values(|s: String| s@) == existing@.subrange(0, i as int).map_values(
                        |s: String| s@,
                    ),
                decreases n - i,
            {
                let ghost prev = values@;
                let copy = existing[i].clone();
                assert(copy@ == existing@[i as int]@);
                values.push(copy);
                assert(values@[i as int]@ == existing@[i as int]@);
                proof {
                    let mapped = values@.map_values(|s: String| s@);
                    let target = existing@.subrange(0, i + 1).map_values(|s: String| s@);
                    let old_mapped = prev.map_values(|s: String| s@);
                    let old_target = existing@.subrange(0, i as int).map_values(|s: String| s@);
                    assert forall|j: int| 0 <= j < i + 1 implies mapped[j] == target[j] by {
                        if j < i {
                            assert(old_mapped[j] == old_target[j]);
                        }
                    }
                    assert(mapped =~= target);
                }
                i = i + 1;
            }
            assert(existing@.subrange(0, n as int) =~= existing@);
        },
        None => {
            assert(values@.map_values(|s: String| s@) =~= Seq::<Seq<char>>::empty());
        },
    }
    let ghost kept = values@.map_values(|s: String| s@);
    if let Some(v) = value {
        values.push(v);
        assert(values@.map_values(|s: String| s@) =~= kept.push(v@));
    }
    headers.insert(name, values);
}

/// A char that the HTTP layer takes in a header name: a token char, with
/// ASCII letters in either case.
pub open spec fn is_header_name_char(c: char) -> bool {
    ||| ('a' <= c && c <= 'z')
    ||| ('A' <= c && c <= 'Z')
    ||| ('0' <= c && c <= '9')
    ||| c == '!' || c == '#' || c == '$' || c == '%' || c == '&' || c == '\''
    ||| c == '*' || c == '+' || c == '-' || c == '.' || c == '^' || c == '_'
    ||| c == '`' || c == '|' || c == '~'
}

/// A header name that the HTTP layer takes: not empty, at most 65535 chars,
/// all of them header name chars.
pub open spec fn header_name_accepted(name: Seq<char>) -> bool {
    &&& 0 < name.len() <= 65535
    &&& forall|i: int| 0 <= i < name.len() ==> is_header_name_char(#[trigger] name[i])
}

/// A header value that the HTTP layer takes: no control char but tab, and no DEL.
pub open spec fn header_value_accepted(value: Seq<char>) -> bool {
    forall|i: int|
        0 <= i < value.len() ==> {
            let v = #[trigger] (value[i] as u32);
            (32 <= v && v != 127) || v == 9
        }
}

/// `HeaderName::from_bytes` of `http` (as `reqwest::header` re-exports it),
/// with the error taken by its text. The contract claims what its source
/// (`parse_hdr` and the `HEADER_CHARS` table) shows: a name is accepted
/// exactly where `header_name_accepted` holds (a char outside ASCII has bytes
/// that the table refuses), and the error reads "invalid HTTP header name".
#[verifier::external_body]
fn header_name_error(name: &str) -> (r: Option<String>)
    ensures
        r is None <==> header_name_accepted(name@),
        r matches Some(t) ==> t@ == "invalid HTTP header name"@,
{
    reqwest::header::HeaderName::from_bytes(name.as_bytes()).err().map(|error| error.to_string())
}

/// `HeaderValue::from_str` of `http`, with the error taken by its text. The
/// contract claims what its source (`is_valid`) shows: every byte must be at
/// least 32 and not 127, or a tab (bytes of chars outside ASCII are all at
/// least 128), and the error reads "failed to parse header value".
#[verifier::external_body]
fn header_value_error(value: &str) -> (r: Option<String>)
    ensures
        r is None <==> header_value_accepted(value@),
        r matches Some(t) ==> t@ == "failed to parse header value"@,
{
    reqwest::header::HeaderValue::from_str(value).err().map(|error| error.to_string())
}

/// Why the HTTP layer would refuse these headers, looked at in key order:
/// the first bad name, or bad value, with the header's name in debug form.
pub open spec fn header_problem(es: Seq<(Seq<char>, Seq<char>)>) -> Option<Seq<char>>
    decreases es.len(),
{
    if es.len() == 0 {
        None
    } else if !header_name_accepted(es[0].0) {
        Some("invalid header name "@ + str_debug_text(es[0].0) + ": invalid HTTP header name"@)
    } else if !header_value_accepted(es[0].1) {
        Some(
            "invalid header value for "@ + str_debug_text(es[0].0)
                + ": failed to parse header value"@,
        )
    } else {
        header_problem(es.drop_first())
    }
}

/// Checks the outgoing headers before they are handed to the HTTP layer: the
/// first header, in key order, whose name or value it would refuse gives a
/// validation error.
pub fn check_outgoing_headers(headers: &StrMap<String>) -> (r: Result<(), IpGeolocationError>)
    ensures
        match header_problem(text_entries(headers.entries())) {
            Some(m) => r matches Err(e) && is_validation_error(e, m),
            None => r is Ok,
        },
{
    let ghost es = text_entries(headers.entries());
    let n = headers.len();
    let mut i: usize = 0;
    assert(es.subrange(0, n as int) =~= es);
    while i < n
        invariant
            n == es.len(),
            es == text_entries(headers.entries()),
            i <= n,
            header_problem(es) == header_problem(es.subrange(i as int, n as int)),
        decreases n - i,
    {
        let ghost rest = es.subrange(i as int, n as int);
        assert(rest.drop_first() =~= es.subrange(i + 1, n as int));
        assert(rest[0] == es[i as int]);
        let name = headers.key_at(i);
        let value = headers.value_at(i);
        assert(es[i as int].0 == name@ && es[i as int].1 == value@);
        if let Some(text) = header_name_error(name.as_str()) {
            let mut message = concat("invalid header name ", debug_str(name.as_str()).as_str());
            message.append(": ");
            message.append(text.as_str());
            proof {
                reveal_strlit(": ");
                reveal_strlit("invalid HTTP header name");
                reveal_strlit(": invalid HTTP header name");
                assert(message@ =~= "invalid header name "@ + str_debug_text(name@)
                    + ": invalid HTTP header name"@);
            }
            return Err(IpGeolocationError::validation_message(message));
        }
        if let Some(text) = header_value_error(value.as_str()) {
            let mut message = concat("invalid header value for ", debug_str(name.as_str()).as_str());
            message.append(": ");
            message.append(text.as_str());
            proof {
                reveal_strlit(": ");
                reveal_strlit("failed to parse header value");
                reveal_strlit(": failed to parse header value");
                assert(message@ =~= "invalid header value for "@ + str_debug_text(name@)
                    + ": failed to parse header value"@);
            }
            return Err(IpGeolocationError::validation_message(message));
        }
        i = i + 1;
    }
    assert(es.subrange(n as int, n as int).len() == 0);
    Ok(())
}

} // verus!
