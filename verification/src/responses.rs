//! What the client makes of a response: the status decides between data and
//! an API error, and the headers give the metadata.

use vstd::prelude::*;
use crate::api_response::{ApiResponse, ApiResponseMetadata};
use crate::errors::{ApiError, IpGeolocationError};
use crate::json::{body_message, extract_api_message};
use crate::str_map::StrMap;
use crate::text::{eq_ignore_ascii_case, eq_ignoring_ascii_case, is_blank, parse_u32, parsed_u32, trim};
use crate::transport::HttpResponseData;

verus! {

/// A status in 200..=299.
pub open spec fn is_success(status_code: u16) -> bool {
    200 <= status_code && status_code <= 299
}

pub fn is_success_status(status_code: u16) -> (b: bool)
    ensures
        b == is_success(status_code),
{
    200 <= status_code && status_code <= 299
}

/// The first value of the first header, in key order, whose name equals
/// `name` in any ASCII case and which has a value.
pub open spec fn first_header_value(es: Seq<(Seq<char>, Vec<String>)>, name: Seq<char>) -> Option<
    Seq<char>,
>
    decreases es.len(),
{
    if es.len() == 0 {
        None
    } else if eq_ignoring_ascii_case(es[0].0, name) && es[0].1@.len() > 0 {
        Some(es[0].1@[0]@)
    } else {
        first_header_value(es.drop_first(), name)
    }
}

/// A header value read as a `u32`; `None` where it is missing or not a number.
pub open spec fn header_number(value: Option<Seq<char>>) -> Option<u32> {
    match value {
        Some(v) => parsed_u32(v),
        None => None,
    }
}

/// `X-Credits-Charged` as a number.
pub open spec fn credits_charged_of(es: Seq<(Seq<char>, Vec<String>)>) -> Option<u32> {
    header_number(first_header_value(es, "X-Credits-Charged"@))
}

/// `X-Successful-Record`, else `X-Successful-Records`, as a number.
pub open spec fn successful_records_of(es: Seq<(Seq<char>, Vec<String>)>) -> Option<u32> {
    let single = first_header_value(es, "X-Successful-Record"@);
    header_number(
        if single is Some {
            single
        } else {
            first_header_value(es, "X-Successful-Records"@)
        },
    )
}

/// The metadata that a response with this status, timing and headers yields.
pub open spec fn metadata_of(
    m: ApiResponseMetadata,
    status_code: u16,
    duration_ms: u64,
    headers: StrMap<Vec<String>>,
) -> bool {
    &&& m.credits_charged == credits_charged_of(headers.entries())
    &&& m.successful_records == successful_records_of(headers.entries())
    &&& m.status_code == status_code
    &&& m.duration_ms == duration_ms
    &&& m.raw_headers == headers
}

/// The text for a failed status when the body carries no message.
pub open spec fn default_api_message(status_code: u16) -> Seq<char> {
    if status_code == 400 {
        "Bad Request"@
    } else if status_code == 401 {
        "Unauthorized"@
    } else if status_code == 403 {
        "Forbidden"@
    } else if status_code == 404 {
        "Not Found"@
    } else if status_code == 405 {
        "Method Not Allowed"@
    } else if status_code == 413 {
        "Content Too Large"@
    } else if status_code == 415 {
        "Unsupported Media Type"@
    } else if status_code == 423 {
        "Locked"@
    } else if status_code == 429 {
        "Too Many Requests"@
    } else if status_code == 499 {
        "Client Closed Request"@
    } else if status_code == 500 {
        "Internal Server Error"@
    } else {
        "API request failed"@
    }
}

/// The message of an API error with this status and body: the default text
/// for a blank body, else the message that the trimmed body carries (for JSON,
/// `message`, else `error.message`, else the trimmed body).
pub open spec fn api_message(status_code: u16, body: Seq<char>) -> Seq<char> {
    if is_blank(body) {
        default_api_message(status_code)
    } else {
        body_message(trim(body))
    }
}

/// What a response becomes: data and metadata for a success status, else an
/// API error with the status and the body's message.
pub open spec fn response_outcome(
    r: Result<ApiResponse<String>, IpGeolocationError>,
    response: HttpResponseData,
    duration_ms: u64,
) -> bool {
    if is_success(response.status_code) {
        r matches Ok(a) && a.data == response.body && metadata_of(
            a.metadata,
            response.status_code,
            duration_ms,
            response.headers,
        )
    } else {
        r matches Err(e) && e matches IpGeolocationError::Api(api) && api@.0
            == response.status_code && api@.1 == api_message(response.status_code, response.body@)
    }
}

fn first_header_ignore_case<'a>(headers: &'a StrMap<Vec<String>>, name: &str) -> (r: Option<
    &'a String,
>)
    ensures
        match r {
            Some(v) => first_header_value(headers.entries(), name@) == Some(v@),
            None => first_header_value(headers.entries(), name@) is None,
        },
{
    let ghost es = headers.entries();
    let n = headers.len();
    let mut i: usize = 0;
    assert(es.subrange(0, n as int) =~= es);
    while i < n
        invariant
            n == es.len(),
            es == headers.entries(),
            i <= n,
            first_header_value(es, name@) == first_header_value(es.subrange(i as int, n as int), name@),
        decreases n - i,
    {
        let ghost rest = es.subrange(i as int, n as int);
        assert(rest.drop_first() =~= es.subrange(i + 1, n as int));
        assert(rest[0] == es[i as int]);
        let key = headers.key_at(i);
        if eq_ignore_ascii_case(key.as_str(), name) {
            let values = headers.value_at(i);
            if values.len() > 0 {
                return Some(&values[0]);
            }
        }
        i = i + 1;
    }
    None
}

fn parse_u32_header(value: Option<&String>) -> (r: Option<u32>)
    ensures
        r == header_number(
            match value {
                Some(v) => Some(v@),
                None => None,
            },
        ),
{
    match value {
        Some(v) => parse_u32(v.as_str()),
        None => None,
    }
}

fn to_metadata(status_code: u16, duration_ms: u64, headers: StrMap<Vec<String>>) -> (m:
    ApiResponseMetadata)
    ensures
        metadata_of(m, status_code, duration_ms, headers),
{
    let credits_charged = parse_u32_header(first_header_ignore_case(&headers, "X-Credits-Charged"));
    let single = first_header_ignore_case(&headers, "X-Successful-Record");
    let successful = match single {
        Some(v) => Some(v),
        None => first_header_ignore_case(&headers, "X-Successful-Records"),
    };
    let successful_records = parse_u32_header(successful);
    ApiResponseMetadata {
        credits_charged,
        successful_records,
        status_code,
        duration_ms,
        raw_headers: headers,
    }
}

pub fn default_api_error_message(status_code: u16) -> (m: String)
    ensures
        m@ == default_api_message(status_code),
{
    let text = if status_code == 400 {
        "Bad Request"
    } else if status_code == 401 {
        "Unauthorized"
    } else if status_code == 403 {
        "Forbidden"
    } else if status_code == 404 {
        "Not Found"
    } else if status_code == 405 {
        "Method Not Allowed"
    } else if status_code == 413 {
        "Content Too Large"
    } else if status_code == 415 {
        "Unsupported Media Type"
    } else if status_code == 423 {
        "Locked"
    } else if status_code == 429 {
        "Too Many Requests"
    } else if status_code == 499 {
        "Client Closed Request"
    } else if status_code == 500 {
        "Internal Server Error"
    } else {
        "API request failed"
    };
    text.to_owned()
}

pub fn to_api_error(status_code: u16, body: &str) -> (e: IpGeolocationError)
    ensures
        e matches IpGeolocationError::Api(api) && api@.0 == status_code && api@.1 == api_message(
            status_code,
            body@,
        ),
{
    let message = match extract_api_message(body) {
        Some(m) => m,
        None => default_api_error_message(status_code),
    };
    IpGeolocationError::Api(ApiError::new(status_code, message))
}

/// Turns a response into data and metadata, or into an API error.
pub fn finish_response(response: HttpResponseData, duration_ms: u64) -> (r: Result<
    ApiResponse<String>,
    IpGeolocationError,
>)
    ensures
        response_outcome(r, response, duration_ms),
{
    if !is_success_status(response.status_code) {
        return Err(to_api_error(response.status_code, response.body.as_str()));
    }
    let metadata = to_metadata(response.status_code, duration_ms, response.headers);
    Ok(ApiResponse { data: response.body, metadata })
}

} // verus!
