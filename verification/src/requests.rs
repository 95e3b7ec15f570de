//! Lookup requests and the rules that their values must meet.

use vstd::prelude::*;
use crate::config::{blank_error, first_error, line_break_error};
use crate::errors::ValidationError;
use crate::response_format::ResponseFormat;
use crate::str_map::StrMap;
use crate::text::{
    concat, contains_line_break, fold_char, folded, has_line_break, is_blank, is_blank_str, trim,
    trim_str,
};

verus! {

/// The most IPs or domains that one bulk request may carry.
pub const MAX_BULK_IPS: usize = 50_000;

/// A lookup of one IP address or domain (or of the caller's own address).
#[derive(Clone, Debug, Default, PartialEq)]
pub struct LookupIpGeolocationRequest {
    pub ip: Option<String>,
    pub lang: Option<String>,
    pub include_modules: Vec<String>,
    pub fields: Vec<String>,
    pub excludes: Vec<String>,
    pub user_agent: Option<String>,
    pub headers: StrMap<String>,
    pub output: ResponseFormat,
}

/// A lookup of many IP addresses or domains in one request.
#[derive(Clone, Debug, Default, PartialEq)]
pub struct BulkLookupIpGeolocationRequest {
    pub ips: Vec<String>,
    pub lang: Option<String>,
    pub include_modules: Vec<String>,
    pub fields: Vec<String>,
    pub excludes: Vec<String>,
    pub user_agent: Option<String>,
    pub headers: StrMap<String>,
    pub output: ResponseFormat,
}

/// A lookup value must not be blank and must not hold a line break.
pub open spec fn lookup_value_error(value: Seq<char>, field: Seq<char>) -> Option<Seq<char>> {
    first_error(blank_error(value, field), line_break_error(value, field))
}

pub open spec fn optional_value_error(value: Option<String>, field: Seq<char>) -> Option<
    Seq<char>,
> {
    match value {
        Some(v) => lookup_value_error(v@, field),
        None => None,
    }
}

/// The languages that the API answers in, as lower-case two-letter codes.
pub open spec fn is_language_code(a: u32, b: u32) -> bool {
    let pair = |x: char, y: char| a == x as u32 && b == y as u32;
    ||| pair('e', 'n')
    ||| pair('d', 'e')
    ||| pair('r', 'u')
    ||| pair('j', 'a')
    ||| pair('f', 'r')
    ||| pair('c', 'n')
    ||| pair('e', 's')
    ||| pair('c', 's')
    ||| pair('i', 't')
    ||| pair('k', 'o')
    ||| pair('f', 'a')
    ||| pair('p', 't')
}

/// Whether trimmed text names a supported language, in any ASCII case.
pub open spec fn is_supported_language(t: Seq<char>) -> bool {
    t.len() == 2 && is_language_code(folded(t[0]), folded(t[1]))
}

pub open spec fn language_error(lang: Option<String>) -> Option<Seq<char>> {
    match lang {
        None => None,
        Some(v) => if trim(v@).len() == 0 {
            Some("lang must not be blank"@)
        } else if is_supported_language(trim(v@)) {
            None
        } else {
            Some("lang must be one of: en, de, ru, ja, fr, cn, es, cs, it, ko, fa, pt"@)
        },
    }
}

/// A list of names must not hold a blank entry.
pub open spec fn list_error(values: Seq<String>, field: Seq<char>) -> Option<Seq<char>> {
    if exists|i: int| 0 <= i < values.len() && is_blank(#[trigger] values[i]@) {
        Some(field + " must not contain blank values"@)
    } else {
        None
    }
}

/// The error of the first header, in key order, that breaks a rule.
pub open spec fn headers_error(es: Seq<(Seq<char>, String)>) -> Option<Seq<char>>
    decreases es.len(),
{
    if es.len() == 0 {
        None
    } else {
        let name = es[0].0;
        let value = es[0].1@;
        if is_blank(name) {
            Some("headers must not contain blank names"@)
        } else if is_blank(value) {
            Some("headers must not contain blank values"@)
        } else if has_line_break(name) || has_line_break(value) {
            Some("headers must not contain CR or LF"@)
        } else {
            headers_error(es.drop_first())
        }
    }
}

/// The error of the first value of `values` that breaks a rule.
pub open spec fn values_error(values: Seq<String>, field: Seq<char>) -> Option<Seq<char>>
    decreases values.len(),
{
    if values.len() == 0 {
        None
    } else {
        first_error(lookup_value_error(values[0]@, field), values_error(values.drop_first(), field))
    }
}

/// The rules that both kinds of lookup share, after their own first checks.
pub open spec fn options_error(
    lang: Option<String>,
    include_modules: Seq<String>,
    fields: Seq<String>,
    excludes: Seq<String>,
    user_agent: Option<String>,
    headers: Seq<(Seq<char>, String)>,
) -> Option<Seq<char>> {
    first_error(
        language_error(lang),
        first_error(
            list_error(include_modules, "\x69nclude"@),
            first_error(
                list_error(fields, "fields"@),
                first_error(
                    list_error(excludes, "excludes"@),
                    first_error(
                        optional_value_error(user_agent, "user_agent"@),
                        headers_error(headers),
                    ),
                ),
            ),
        ),
    )
}

/// The message of the first rule that a single lookup request breaks, if any.
pub open spec fn lookup_request_error(r: LookupIpGeolocationRequest) -> Option<Seq<char>> {
    first_error(
        optional_value_error(r.ip, "ip"@),
        options_error(r.lang, r.include_modules@, r.fields@, r.excludes@, r.user_agent, r.headers.entries()),
    )
}

/// The message of the first rule that a bulk lookup request breaks, if any.
pub open spec fn bulk_request_error(r: BulkLookupIpGeolocationRequest) -> Option<Seq<char>> {
    if r.ips@.len() == 0 {
        Some("ips must contain at least one IP address or domain"@)
    } else if r.ips@.len() > MAX_BULK_IPS {
        Some("ips must not contain more than 50000 entries"@)
    } else {
        first_error(
            values_error(r.ips@, "ips"@),
            options_error(
                r.lang,
                r.include_modules@,
                r.fields@,
                r.excludes@,
                r.user_agent,
                r.headers.entries(),
            ),
        )
    }
}

fn validate_lookup_value(value: &str, field_name: &str) -> (r: Result<(), ValidationError>)
    ensures
        match lookup_value_error(value@, field_name@) {
            Some(m) => r matches Err(e) && e@ == m,
            None => r is Ok,
        },
{
    if is_blank_str(value) {
        return Err(ValidationError::new(concat(field_name, " must not be blank")));
    }
    if contains_line_break(value) {
        return Err(ValidationError::new(concat(field_name, " must not contain CR or LF")));
    }
    Ok(())
}

fn validate_optional_value(value: &Option<String>, field_name: &str) -> (r: Result<
    (),
    ValidationError,
>)
    ensures
        match optional_value_error(*value, field_name@) {
            Some(m) => r matches Err(e) && e@ == m,
            None => r is Ok,
        },
{
    match value {
        Some(v) => validate_lookup_value(v.as_str(), field_name),
        None => Ok(()),
    }
}

fn validate_optional_language(value: &Option<String>) -> (r: Result<(), ValidationError>)
    ensures
        match language_error(*value) {
            Some(m) => r matches Err(e) && e@ == m,
            None => r is Ok,
        },
{
    let value = match value {
        Some(v) => v,
        None => {
            return Ok(());
        },
    };
    let normalized = trim_str(value.as_str());
    if normalized.is_empty() {
        return Err(ValidationError::new("lang must not be blank".to_owned()));
    }
    if normalized.unicode_len() == 2 {
        let a = fold_char(normalized.get_char(0));
        let b = fold_char(normalized.get_char(1));
        let pair = |x: char, y: char| -> (m: bool)
            ensures
                m == (a == x as u32 && b == y as u32),
            { a == x as u32 && b == y as u32 };
        if pair('e', 'n') || pair('d', 'e') || pair('r', 'u') || pair('j', 'a') || pair('f', 'r')
            || pair('c', 'n') || pair('e', 's') || pair('c', 's') || pair('i', 't') || pair(
            'k',
            'o',
        ) || pair('f', 'a') || pair('p', 't') {
            return Ok(());
        }
    }
    Err(
        ValidationError::new(
            "lang must be one of: en, de, ru, ja, fr, cn, es, cs, it, ko, fa, pt".to_owned(),
        ),
    )
}

fn validate_string_list(values: &Vec<String>, field_name: &str) -> (r: Result<(), ValidationError>)
    ensures
        match list_error(values@, field_name@) {
            Some(m) => r matches Err(e) && e@ == m,
            None => r is Ok,
        },
{
    let n = values.len();
    let mut i: usize = 0;
    while i < n
        invariant
            n == values@.len(),
            i <= n,
            forall|j: int| 0 <= j < i ==> !is_blank(#[trigger] values@[j]@),
        decreases n - i,
    {
        if is_blank_str(values[i].as_str()) {
            return Err(ValidationError::new(concat(field_name, " must not contain blank values")));
        }
        i = i + 1;
    }
    Ok(())
}

fn validate_lookup_values(values: &Vec<String>, field_name: &str) -> (r: Result<
    (),
    ValidationError,
>)
    ensures
        match values_error(values@, field_name@) {
            Some(m) => r matches Err(e) && e@ == m,
            None => r is Ok,
        },
{
    let n = values.len();
    let mut i: usize = 0;
    assert(values@.subrange(0, n as int) =~= values@);
    while i < n
        invariant
            n == values@.len(),
            i <= n,
            values_error(values@, field_name@) == values_error(
                values@.subrange(i as int, n as int),
                field_name@,
            ),
        decreases n - i,
    {
        let ghost rest = values@.subrange(i as int, n as int);
        assert(rest.drop_first() =~= values@.subrange(i + 1, n as int));
        validate_lookup_value(values[i].as_str(), field_name)?;
        i = i + 1;
    }
    Ok(())
}

fn validate_headers(headers: &StrMap<String>) -> (r: Result<(), ValidationError>)
    ensures
        match headers_error(headers.entries()) {
            Some(m) => r matches Err(e) && e@ == m,
            None => r is Ok,
        },
{
    let n = headers.len();
    let mut i: usize = 0;
    assert(headers.entries().subrange(0, n as int) =~= headers.entries());
    while i < n
        invariant
            n == headers.entries().len(),
            i <= n,
            headers_error(headers.entries()) == headers_error(
                headers.entries().subrange(i as int, n as int),
            ),
        decreases n - i,
    {
        let ghost rest = headers.entries().subrange(i as int, n as int);
        assert(rest.drop_first() =~= headers.entries().subrange(i + 1, n as int));
        let name = headers.key_at(i);
        let value = headers.value_at(i);
        if is_blank_str(name.as_str()) {
            return Err(ValidationError::new("headers must not contain blank names".to_owned()));
        }
        if is_blank_str(value.as_str()) {
            return Err(ValidationError::new("headers must not contain blank values".to_owned()));
        }
        if contains_line_break(name.as_str()) || contains_line_break(value.as_str()) {
            return Err(ValidationError::new("headers must not contain CR or LF".to_owned()));
        }
        i = i + 1;
    }
    Ok(())
}

fn validate_options(
    lang: &Option<String>,
    include_modules: &Vec<String>,
    fields: &Vec<String>,
    excludes: &Vec<String>,
    user_agent: &Option<String>,
    headers: &StrMap<String>,
) -> (r: Result<(), ValidationError>)
    ensures
        match options_error(*lang, include_modules@, fields@, excludes@, *user_agent, headers.entries()) {
            Some(m) => r matches Err(e) && e@ == m,
            None => r is Ok,
        },
{
    validate_optional_language(lang)?;
    validate_string_list(include_modules, "\x69nclude")?;
    validate_string_list(fields, "fields")?;
    validate_string_list(excludes, "excludes")?;
    validate_optional_value(user_agent, "user_agent")?;
    validate_headers(headers)?;
    Ok(())
}

impl LookupIpGeolocationRequest {
    /// Checks the request values; the error names the first rule broken.
    pub fn validate(&self) -> (r: Result<(), ValidationError>)
        ensures
            match lookup_request_error(*self) {
                Some(m) => r matches Err(e) && e@ == m,
                None => r is Ok,
            },
    {
        validate_optional_value(&self.ip, "ip")?;
        validate_options(
            &self.lang,
            &self.include_modules,
            &self.fields,
            &self.excludes,
            &self.user_agent,
            &self.headers,
        )
    }
}

impl BulkLookupIpGeolocationRequest {
    /// Checks the request values; the error names the first rule broken.
    /// The list of IPs is left as it is: order and duplicates are kept.
    pub fn validate(&self) -> (r: Result<(), ValidationError>)
        ensures
            match bulk_request_error(*self) {
                Some(m) => r matches Err(e) && e@ == m,
                None => r is Ok,
            },
    {
        if self.ips.len() == 0 {
            return Err(
                ValidationError::new(
                    "ips must contain at least one IP address or domain".to_owned(),
                ),
            );
        }
        if self.ips.len() > MAX_BULK_IPS {
            return Err(
                ValidationError::new("ips must not contain more than 50000 entries".to_owned()),
            );
        }
        validate_lookup_values(&self.ips, "ips")?;
        validate_options(
            &self.lang,
            &self.include_modules,
            &self.fields,
            &self.excludes,
            &self.user_agent,
            &self.headers,
        )
    }
}

} // verus!
