//! Client configuration and the rules that it must meet.

use vstd::prelude::*;
use crate::errors::ValidationError;
use crate::text::{
    concat, decimal, decimal_string, has_line_break, is_blank, is_blank_str, contains_line_break,
    starts_with, str_equal, trim, trim_str,
};
use crate::url_parts::{parse_url, url_parse_result, UrlParts, UrlPartsView};

verus! {

pub const DEFAULT_BASE_URL: &'static str = "https://api.ipgeolocation.io";

pub const DEFAULT_CONNECT_TIMEOUT_MS: u64 = 10_000;

pub const DEFAULT_REQUEST_TIMEOUT_MS: u64 = 30_000;

/// How a client authenticates, where it sends requests and how long it waits.
#[derive(PartialEq, Eq)]
pub struct IpGeolocationClientConfig {
    pub api_key: Option<String>,
    pub request_origin: Option<String>,
    pub base_url: String,
    pub connect_timeout_ms: u64,
    pub request_timeout_ms: u64,
}

impl Clone for IpGeolocationClientConfig {
    fn clone(&self) -> (c: Self)
        ensures
            c == *self,
    {
        IpGeolocationClientConfig {
            api_key: match &self.api_key {
                Some(k) => Some(k.clone()),
                None => None,
            },
            request_origin: match &self.request_origin {
                Some(o) => Some(o.clone()),
                None => None,
            },
            base_url: self.base_url.clone(),
            connect_timeout_ms: self.connect_timeout_ms,
            request_timeout_ms: self.request_timeout_ms,
        }
    }
}

impl Default for IpGeolocationClientConfig {
    fn default() -> (c: Self)
        ensures
            c.api_key is None,
            c.request_origin is None,
            c.base_url@ == DEFAULT_BASE_URL@,
            c.connect_timeout_ms == DEFAULT_CONNECT_TIMEOUT_MS,
            c.request_timeout_ms == DEFAULT_REQUEST_TIMEOUT_MS,
    {
        IpGeolocationClientConfig {
            api_key: None,
            request_origin: None,
            base_url: DEFAULT_BASE_URL.to_owned(),
            connect_timeout_ms: DEFAULT_CONNECT_TIMEOUT_MS,
            request_timeout_ms: DEFAULT_REQUEST_TIMEOUT_MS,
        }
    }
}

/// `a` if it holds an error, else `b`: the first failing check wins.
pub open spec fn first_error(a: Option<Seq<char>>, b: Option<Seq<char>>) -> Option<Seq<char>> {
    if a is Some {
        a
    } else {
        b
    }
}

pub open spec fn blank_error(value: Seq<char>, field: Seq<char>) -> Option<Seq<char>> {
    if is_blank(value) {
        Some(field + " must not be blank"@)
    } else {
        None
    }
}

pub open spec fn line_break_error(value: Seq<char>, field: Seq<char>) -> Option<Seq<char>> {
    if has_line_break(value) {
        Some(field + " must not contain CR or LF"@)
    } else {
        None
    }
}

pub open spec fn has_prefix(s: Seq<char>, p: Seq<char>) -> bool {
    p.len() <= s.len() && s.subrange(0, p.len() as int) == p
}

/// What follows `https://`, else what follows `http://`, if either begins `t`.
pub open spec fn after_http_scheme(t: Seq<char>) -> Option<Seq<char>> {
    if has_prefix(t, "https://"@) {
        Some(t.subrange("https://"@.len() as int, t.len() as int))
    } else if has_prefix(t, "http://"@) {
        Some(t.subrange("http://"@.len() as int, t.len() as int))
    } else {
        None
    }
}

/// The outcome of `parse_http_url`: the parsed URL, or the error message.
pub open spec fn http_url_outcome(value: Seq<char>, field: Seq<char>) -> Result<
    UrlPartsView,
    Seq<char>,
> {
    let t = trim(value);
    let host_message = field + " must include a valid host"@;
    let absolute_message = field + " must be an absolute http or https URL"@;
    if after_http_scheme(t) is Some && (after_http_scheme(t)->0.len() == 0
        || after_http_scheme(t)->0[0] == '/') {
        Err(host_message)
    } else {
        match url_parse_result(t) {
            None => Err(absolute_message),
            Some(p) => if !(p.scheme == "http"@ || p.scheme == "https"@) {
                Err(absolute_message)
            } else if p.host is None || is_blank(p.host->0) {
                Err(host_message)
            } else {
                Ok(p)
            },
        }
    }
}

pub open spec fn base_url_error(value: Seq<char>) -> Option<Seq<char>> {
    match http_url_outcome(value, "base_url"@) {
        Err(m) => Some(m),
        Ok(p) => if p.query is Some || p.fragment is Some {
            Some("base_url must not include params, query, or fragment"@)
        } else if p.username.len() > 0 || p.password is Some {
            Some("base_url must not include userinfo"@)
        } else {
            None
        },
    }
}

pub open spec fn request_origin_error(value: Seq<char>) -> Option<Seq<char>> {
    match http_url_outcome(value, "request_origin"@) {
        Err(m) => Some(m),
        Ok(p) => if p.username.len() > 0 || p.password is Some {
            Some("request_origin must not include userinfo"@)
        } else if p.query is Some || p.fragment is Some {
            Some("request_origin must not include params, query, or fragment"@)
        } else if p.path != "/"@ {
            Some("request_origin must not include a path"@)
        } else {
            None
        },
    }
}

pub open spec fn api_key_error(api_key: Option<String>) -> Option<Seq<char>> {
    match api_key {
        Some(k) => first_error(blank_error(k@, "api_key"@), line_break_error(k@, "api_key"@)),
        None => None,
    }
}

pub open spec fn origin_field_error(origin: Option<String>) -> Option<Seq<char>> {
    match origin {
        Some(o) => first_error(
            blank_error(o@, "request_origin"@),
            first_error(line_break_error(o@, "request_origin"@), request_origin_error(o@)),
        ),
        None => None,
    }
}

/// The message of the first rule that a configuration breaks, if any.
pub open spec fn config_error(c: IpGeolocationClientConfig) -> Option<Seq<char>> {
    first_error(
        api_key_error(c.api_key),
        first_error(
            origin_field_error(c.request_origin),
            first_error(
                blank_error(c.base_url@, "base_url"@),
                first_error(
                    base_url_error(c.base_url@),
                    if c.connect_timeout_ms == 0 {
                        Some("connect_timeout_ms must be greater than zero"@)
                    } else if c.request_timeout_ms == 0 {
                        Some("request_timeout_ms must be greater than zero"@)
                    } else {
                        None
                    },
                ),
            ),
        ),
    )
}

/// What `Debug` prints for a `str`.
pub uninterp spec fn str_debug_text(s: Seq<char>) -> Seq<char>;

/// `<str as Debug>::fmt`, through `format!("{:?}")`. The contract claims that
/// the text is a function of the chars alone; the escaping is not restated.
#[verifier::external_body]
pub(crate) fn debug_str(s: &str) -> (r: String)
    ensures
        r@ == str_debug_text(s@),
{
    format!("{:?}", s)
}

/// The debug text of a configuration, in the layout of a derived `Debug`, with
/// the API key shown only as set or unset.
pub open spec fn config_debug_text(
    has_api_key: bool,
    origin: Option<Seq<char>>,
    base_url: Seq<char>,
    connect_timeout_ms: u64,
    request_timeout_ms: u64,
) -> Seq<char> {
    "IpGeolocationClientConfig { api_key: "@ + str_debug_text(
        if has_api_key {
            "[REDACTED]"@
        } else {
            "[UNSET]"@
        },
    ) + ", request_origin: "@ + match origin {
        Some(o) => "Some("@ + str_debug_text(o) + ")"@,
        None => "None"@,
    } + ", base_url: "@ + str_debug_text(base_url) + ", connect_timeout_ms: "@ + decimal(
        connect_timeout_ms as nat,
    ) + ", request_timeout_ms: "@ + decimal(request_timeout_ms as nat) + " }"@
}

/// The debug text of a configuration.
pub open spec fn debug_text_of(c: IpGeolocationClientConfig) -> Seq<char> {
    config_debug_text(
        c.api_key is Some,
        match c.request_origin {
            Some(o) => Some(o@),
            None => None,
        },
        c.base_url@,
        c.connect_timeout_ms,
        c.request_timeout_ms,
    )
}

fn validate_non_blank(value: &str, field_name: &str) -> (r: Result<(), ValidationError>)
    ensures
        match blank_error(value@, field_name@) {
            Some(m) => r matches Err(e) && e@ == m,
            None => r is Ok,
        },
{
    if is_blank_str(value) {
        return Err(ValidationError::new(concat(field_name, " must not be blank")));
    }
    Ok(())
}

fn validate_no_crlf(value: &str, field_name: &str) -> (r: Result<(), ValidationError>)
    ensures
        match line_break_error(value@, field_name@) {
            Some(m) => r matches Err(e) && e@ == m,
            None => r is Ok,
        },
{
    if contains_line_break(value) {
        return Err(ValidationError::new(concat(field_name, " must not contain CR or LF")));
    }
    Ok(())
}

/// Checks that `value`, trimmed, is an absolute `http` or `https` URL with a host.
fn parse_http_url(value: &str, field_name: &str) -> (r: Result<UrlParts, ValidationError>)
    ensures
        match http_url_outcome(value@, field_name@) {
            Ok(p) => r matches Ok(q) && q@ == p,
            Err(m) => r matches Err(e) && e@ == m,
        },
{
    let trimmed = trim_str(value);
    let n = trimmed.unicode_len();
    let https = "https://";
    let http = "http://";
    let rest = if starts_with(trimmed, https) {
        Some(trimmed.substring_char(https.unicode_len(), n))
    } else if starts_with(trimmed, http) {
        Some(trimmed.substring_char(http.unicode_len(), n))
    } else {
        None
    };
    assert(match rest {
        Some(w) => after_http_scheme(trimmed@) == Some(w@),
        None => after_http_scheme(trimmed@) is None,
    });
    if let Some(without_scheme) = rest {
        let slash = starts_with(without_scheme, "/");
        proof {
            reveal_strlit("/");
            let w = without_scheme@;
            if w.len() > 0 {
                assert(w.subrange(0, 1)[0] == w[0]);
                if w[0] == '/' {
                    assert(w.subrange(0, 1) =~= "/"@);
                }
            }
            assert(slash == (w.len() > 0 && w[0] == '/'));
        }
        if without_scheme.is_empty() || slash {
            return Err(ValidationError::new(concat(field_name, " must include a valid host")));
        }
    }
    let url = match parse_url(trimmed) {
        Some(url) => url,
        None => {
            return Err(
                ValidationError::new(concat(field_name, " must be an absolute http or https URL")),
            );
        },
    };
    if !(str_equal(url.scheme.as_str(), "http") || str_equal(url.scheme.as_str(), "https")) {
        return Err(
            ValidationError::new(concat(field_name, " must be an absolute http or https URL")),
        );
    }
    let host_missing = match &url.host {
        Some(host) => is_blank_str(host.as_str()),
        None => true,
    };
    if host_missing {
        return Err(ValidationError::new(concat(field_name, " must include a valid host")));
    }
    Ok(url)
}

fn validate_base_url(value: &str) -> (r: Result<(), ValidationError>)
    ensures
        match base_url_error(value@) {
            Some(m) => r matches Err(e) && e@ == m,
            None => r is Ok,
        },
{
    let url = parse_http_url(value, "base_url")?;
    if url.query.is_some() || url.fragment.is_some() {
        return Err(
            ValidationError::new("base_url must not include params, query, or fragment".to_owned()),
        );
    }
    if !url.username.as_str().is_empty() || url.password.is_some() {
        return Err(ValidationError::new("base_url must not include userinfo".to_owned()));
    }
    Ok(())
}

fn validate_request_origin(value: &str) -> (r: Result<(), ValidationError>)
    ensures
        match request_origin_error(value@) {
            Some(m) => r matches Err(e) && e@ == m,
            None => r is Ok,
        },
{
    let url = parse_http_url(value, "request_origin")?;
    if !url.username.as_str().is_empty() || url.password.is_some() {
        return Err(ValidationError::new("request_origin must not include userinfo".to_owned()));
    }
    if url.query.is_some() || url.fragment.is_some() {
        return Err(
            ValidationError::new(
                "request_origin must not include params, query, or fragment".to_owned(),
            ),
        );
    }
    if !str_equal(url.path.as_str(), "/") {
        return Err(ValidationError::new("request_origin must not include a path".to_owned()));
    }
    Ok(())
}

impl IpGeolocationClientConfig {
    /// Checks the configuration; the error names the first rule broken.
    pub fn validate(&self) -> (r: Result<(), ValidationError>)
        ensures
            match config_error(*self) {
                Some(m) => r matches Err(e) && e@ == m,
                None => r is Ok,
            },
    {
        if let Some(api_key) = &self.api_key {
            validate_non_blank(api_key.as_str(), "api_key")?;
            validate_no_crlf(api_key.as_str(), "api_key")?;
        }
        if let Some(request_origin) = &self.request_origin {
            validate_non_blank(request_origin.as_str(), "request_origin")?;
            validate_no_crlf(request_origin.as_str(), "request_origin")?;
            validate_request_origin(request_origin.as_str())?;
        }
        validate_non_blank(self.base_url.as_str(), "base_url")?;
        validate_base_url(self.base_url.as_str())?;
        if self.connect_timeout_ms == 0 {
            return Err(
                ValidationError::new("connect_timeout_ms must be greater than zero".to_owned()),
            );
        }
        if self.request_timeout_ms == 0 {
            return Err(
                ValidationError::new("request_timeout_ms must be greater than zero".to_owned()),
            );
        }
        Ok(())
    }

    /// The text that `Debug` shows for the configuration; the API key itself
    /// never enters it.
    pub fn redacted_debug(&self) -> (s: String)
        ensures
            s@ == debug_text_of(*self),
    {
        let mut s = "IpGeolocationClientConfig { api_key: ".to_owned();
        let key_text = if self.api_key.is_some() {
            debug_str("[REDACTED]")
        } else {
            debug_str("[UNSET]")
        };
        s.append(key_text.as_str());
        s.append(", request_origin: ");
        match &self.request_origin {
            Some(o) => {
                s.append("Some(");
                s.append(debug_str(o.as_str()).as_str());
                s.append(")");
            },
            None => {
                s.append("None");
            },
        }
        s.append(", base_url: ");
        s.append(debug_str(self.base_url.as_str()).as_str());
        s.append(", connect_timeout_ms: ");
        s.append(decimal_string(self.connect_timeout_ms).as_str());
        s.append(", request_timeout_ms: ");
        s.append(decimal_string(self.request_timeout_ms).as_str());
        s.append(" }");
        s
    }
}

} // verus!
