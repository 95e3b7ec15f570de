//! JSON reading and writing, done by `serde_json`. The library reads a parsed
//! value only through the few members that its rules look at.

use vstd::prelude::*;
use serde_json::Value;
use crate::building::joined;
use crate::errors::{is_serialization_error, IpGeolocationError};
use crate::text::{digit_char, is_blank, trim, trim_str};

verus! {

#[verifier::external_type_specification]
#[verifier::external_body]
pub struct ExJsonValue(serde_json::Value);

#[verifier::external_type_specification]
#[verifier::external_body]
pub struct ExJsonError(serde_json::Error);

/// Whether `serde_json` accepts the text as one JSON value.
pub uninterp spec fn json_text_parses(text: Seq<char>) -> bool;

/// The value that `serde_json` reads from a text that it accepts.
pub uninterp spec fn json_value_of(text: Seq<char>) -> Value;

/// The elements of the JSON array that the text holds, in order, or `None`
/// where `serde_json` does not read the text as an array.
pub uninterp spec fn json_array_elements(text: Seq<char>) -> Option<Seq<Value>>;

/// `serde_json::from_str::<Value>`. The contract claims that it succeeds
/// exactly where `serde_json` accepts the text, and that the value is the one
/// read from that text (the parse depends on the text alone).
#[verifier::external_body]
pub(crate) fn parse_json_value(text: &str) -> (r: Result<Value, serde_json::Error>)
    ensures
        r is Ok <==> json_text_parses(text@),
        r matches Ok(v) ==> v == json_value_of(text@),
{
    serde_json::from_str::<Value>(text)
}

/// `serde_json::from_str::<Vec<Value>>`. The contract claims that it succeeds
/// exactly where the text is read as an array, and that the vector holds that
/// array's elements in order.
#[verifier::external_body]
pub(crate) fn parse_json_array(text: &str) -> (r: Result<Vec<Value>, serde_json::Error>)
    ensures
        r is Ok <==> json_array_elements(text@) is Some,
        r matches Ok(values) ==> json_array_elements(text@) == Some(values@),
{
    serde_json::from_str::<Vec<Value>>(text)
}

/// What a parsed JSON object holds: each member's value under its name. Any
/// value that is not an object holds no members.
pub uninterp spec fn json_object_members(value: Value) -> Map<Seq<char>, Value>;

/// The text of a parsed JSON string; `None` for any value that is not a string.
pub uninterp spec fn json_string_text(value: Value) -> Option<Seq<char>>;

/// `Value::get` with a string key. The contract claims what serde_json's
/// `Index for str` shows: the member of that name where the value is an object
/// that has one, and `None` for a missing member or a value that is not an object.
#[verifier::external_body]
fn json_member<'a>(value: &'a Value, key: &str) -> (r: Option<&'a Value>)
    ensures
        r is Some <==> json_object_members(*value).dom().contains(key@),
        r matches Some(m) ==> *m == json_object_members(*value)[key@],
{
    value.get(key)
}

/// `Value::as_str`, copied into a `String`. The contract claims that it gives
/// the text of a JSON string and `None` for any other value.
#[verifier::external_body]
fn json_string(value: &Value) -> (r: Option<String>)
    ensures
        opt_text(r) == json_string_text(*value),
{
    value.as_str().map(str::to_string)
}

pub open spec fn opt_text(o: Option<String>) -> Option<Seq<char>> {
    match o {
        Some(s) => Some(s@),
        None => None,
    }
}

/// The text of the member `key` of an object, where that member is a string.
pub open spec fn member_string(value: Value, key: Seq<char>) -> Option<Seq<char>> {
    let members = json_object_members(value);
    if members.dom().contains(key) {
        json_string_text(members[key])
    } else {
        None
    }
}

/// The text of the member `inner` of the member `outer` of an object, where it
/// is a string.
pub open spec fn nested_member_string(value: Value, outer: Seq<char>, inner: Seq<char>) -> Option<
    Seq<char>,
> {
    let members = json_object_members(value);
    if members.dom().contains(outer) {
        member_string(members[outer], inner)
    } else {
        None
    }
}

/// `<serde_json::Error as Display>::fmt`. Nothing is claimed of the text.
#[verifier::external_body]
pub(crate) fn json_error_text(error: &serde_json::Error) -> String {
    error.to_string()
}

pub open spec fn hex_lower(d: nat) -> char {
    if d < 10 {
        digit_char(d)
    } else if d == 10 {
        'a'
    } else if d == 11 {
        'b'
    } else if d == 12 {
        'c'
    } else if d == 13 {
        'd'
    } else if d == 14 {
        'e'
    } else {
        'f'
    }
}

/// How `serde_json` writes one char inside a string: quote, backslash and the
/// control chars below U+0020 are escaped, everything else is written as is.
pub open spec fn json_escaped_char(c: char) -> Seq<char> {
    let v = c as u32;
    if c == '"' {
        seq!['\\', '"']
    } else if c == '\\' {
        seq!['\\', '\\']
    } else if v == 0x08 {
        seq!['\\', 'b']
    } else if v == 0x09 {
        seq!['\\', 't']
    } else if v == 0x0A {
        seq!['\\', 'n']
    } else if v == 0x0C {
        seq!['\\', 'f']
    } else if v == 0x0D {
        seq!['\\', 'r']
    } else if v < 0x20 {
        seq!['\\', 'u', '0', '0', hex_lower((v / 16) as nat), hex_lower((v % 16) as nat)]
    } else {
        seq![c]
    }
}

pub open spec fn json_escaped(s: Seq<char>) -> Seq<char>
    decreases s.len(),
{
    if s.len() == 0 {
        Seq::empty()
    } else {
        json_escaped(s.drop_last()) + json_escaped_char(s.last())
    }
}

/// A string written as a JSON string literal.
pub open spec fn json_quoted(s: Seq<char>) -> Seq<char> {
    seq!['"'] + json_escaped(s) + seq!['"']
}

/// Strings taken by their chars.
pub open spec fn string_views(items: Seq<String>) -> Seq<Seq<char>> {
    items.map_values(|s: String| s@)
}

/// A list of strings written as a JSON array: each string quoted, separated
/// by commas, between brackets.
pub open spec fn json_string_array(items: Seq<Seq<char>>) -> Seq<char> {
    seq!['['] + joined(items.map_values(|s: Seq<char>| json_quoted(s)), ","@) + seq![']']
}

/// `serde_json::to_string` of a list of strings. The contract claims what
/// serde_json's `ser.rs` shows for the compact formatter: it cannot fail (it
/// writes into a `Vec<u8>`, and a `String` always serializes), and the text is
/// `[`, the strings escaped as `format_escaped_str` escapes them and separated
/// by `,`, then `]`.
#[verifier::external_body]
pub(crate) fn json_array_of_strings(items: &Vec<String>) -> (r: Result<String, serde_json::Error>)
    ensures
        r is Ok,
        r matches Ok(text) ==> text@ == json_string_array(string_views(items@)),
{
    serde_json::to_string(items)
}

/// What the client's rules read of one parsed JSON value.
pub struct JsonFields {
    /// The value is an object with an `error` member.
    pub has_error: bool,
    /// The value is an object with a `message` member.
    pub has_message: bool,
    /// The value is an object with an `ip` member.
    pub has_ip: bool,
    /// The `message` member, where it is a string.
    pub message: Option<String>,
    /// The `message` member of the `error` member, where it is a string.
    pub error_message: Option<String>,
}

/// Reads the members that the rules look at.
fn json_fields(value: &Value) -> (f: JsonFields)
    ensures
        fields_of(f, *value),
{
    let error = json_member(value, "error");
    let message = json_member(value, "message");
    let ip = json_member(value, "ip");
    let message_text = match message {
        Some(m) => json_string(m),
        None => None,
    };
    let error_message_text = match error {
        Some(e) => match json_member(e, "message") {
            Some(m) => json_string(m),
            None => None,
        },
        None => None,
    };
    JsonFields {
        has_error: error.is_some(),
        has_message: message.is_some(),
        has_ip: ip.is_some(),
        message: message_text,
        error_message: error_message_text,
    }
}

/// That `f` is what the rules read of `value`.
pub open spec fn fields_of(f: JsonFields, value: Value) -> bool {
    &&& f.has_error == json_object_members(value).dom().contains("error"@)
    &&& f.has_message == json_object_members(value).dom().contains("message"@)
    &&& f.has_ip == json_object_members(value).dom().contains("ip"@)
    &&& opt_text(f.message) == member_string(value, "message"@)
    &&& opt_text(f.error_message) == nested_member_string(value, "error"@, "message"@)
}

/// The `message` text of a value, else its `error.message` text, else `fallback`.
pub open spec fn message_or(value: Value, fallback: Seq<char>) -> Seq<char> {
    match member_string(value, "message"@) {
        Some(m) => m,
        None => match nested_member_string(value, "error"@, "message"@) {
            Some(m) => m,
            None => fallback,
        },
    }
}

/// The message that an API error body carries, once trimmed and not blank:
/// where it is JSON, its `message`, else its `error.message`, else the text
/// itself; where it is not JSON, the text itself.
pub open spec fn body_message(trimmed: Seq<char>) -> Seq<char> {
    if json_text_parses(trimmed) {
        message_or(json_value_of(trimmed), trimmed)
    } else {
        trimmed
    }
}

/// A bulk element is a failure when it is an object with an `error` member,
/// or with a `message` member and no `ip` member.
pub open spec fn marks_bulk_failure(value: Value) -> bool {
    let members = json_object_members(value);
    members.dom().contains("error"@) || (members.dom().contains("message"@)
        && !members.dom().contains("ip"@))
}

/// The item that one bulk element becomes: a failure with its message, or a
/// success that carries the element itself.
pub open spec fn item_for_element(item: BulkLookupItem, value: Value) -> bool {
    if marks_bulk_failure(value) {
        item matches BulkLookupItem::Failure(m) && m@ == message_or(
            value,
            "Bulk lookup item failed"@,
        )
    } else {
        item matches BulkLookupItem::Success(v) && v == value
    }
}

/// One item per element, in order.
pub open spec fn items_for_elements(items: Seq<BulkLookupItem>, elements: Seq<Value>) -> bool {
    &&& items.len() == elements.len()
    &&& forall|i: int| 0 <= i < items.len() ==> item_for_element(#[trigger] items[i], elements[i])
}

/// The items that a bulk response body becomes, where it is a JSON array.
pub open spec fn items_for_body(items: Seq<BulkLookupItem>, body: Seq<char>) -> bool {
    json_array_elements(body) matches Some(elements) && items_for_elements(items, elements)
}

/// A bulk result item is an error when it has an `error` member, or a
/// `message` member and no `ip` member.
pub open spec fn is_bulk_error_fields(f: JsonFields) -> bool {
    f.has_error || (f.has_message && !f.has_ip)
}

/// The message of a failed bulk item: `message`, else `error.message`, else a
/// fixed text.
pub open spec fn bulk_error_message(f: JsonFields) -> Seq<char> {
    match f.message {
        Some(m) => m@,
        None => match f.error_message {
            Some(m) => m@,
            None => "Bulk lookup item failed"@,
        },
    }
}

/// The message of an API error body that parsed as JSON: `message`, else
/// `error.message`, else the trimmed body itself.
pub open spec fn api_message_from(trimmed: Seq<char>, f: JsonFields) -> Seq<char> {
    match f.message {
        Some(m) => m@,
        None => match f.error_message {
            Some(m) => m@,
            None => trimmed,
        },
    }
}

pub fn is_bulk_error_value(fields: &JsonFields) -> (b: bool)
    ensures
        b == is_bulk_error_fields(*fields),
{
    fields.has_error || (fields.has_message && !fields.has_ip)
}

pub fn read_bulk_error_message(fields: &JsonFields) -> (m: String)
    ensures
        m@ == bulk_error_message(*fields),
{
    match &fields.message {
        Some(m) => m.clone(),
        None => match &fields.error_message {
            Some(m) => m.clone(),
            None => "Bulk lookup item failed".to_owned(),
        },
    }
}

pub fn api_message_from_fields(trimmed: &str, fields: &JsonFields) -> (m: String)
    ensures
        m@ == api_message_from(trimmed@, *fields),
{
    match &fields.message {
        Some(m) => m.clone(),
        None => match &fields.error_message {
            Some(m) => m.clone(),
            None => trimmed.to_owned(),
        },
    }
}

/// The message that an API error body carries: `None` for a blank body, the
/// trimmed body where it is not JSON, else the message read from the JSON.
pub fn extract_api_message(body: &str) -> (r: Option<String>)
    ensures
        r is None <==> is_blank(body@),
        r matches Some(m) ==> m@ == body_message(trim(body@)),
{
    let trimmed = trim_str(body);
    if trimmed.is_empty() {
        return None;
    }
    match parse_json_value(trimmed) {
        Ok(value) => {
            let fields = json_fields(&value);
            Some(api_message_from_fields(trimmed, &fields))
        },
        Err(_) => Some(trimmed.to_owned()),
    }
}

/// One element of a bulk response: the JSON of a successful lookup, which is
/// read into a response model outside the library, or the message of a failed one.
#[derive(Debug)]
pub enum BulkLookupItem {
    Success(Value),
    Failure(String),
}

/// The item that a bulk element becomes, given what its rules read of it.
pub open spec fn bulk_item_matches(item: BulkLookupItem, f: JsonFields) -> bool {
    if is_bulk_error_fields(f) {
        item matches BulkLookupItem::Failure(m) && m@ == bulk_error_message(f)
    } else {
        item is Success
    }
}

/// Turns one element into an item: a failure with its message where the
/// fields mark it as an error, else a success that carries the value.
pub fn bulk_item_from_fields(value: Value, fields: &JsonFields) -> (item: BulkLookupItem)
    ensures
        bulk_item_matches(item, *fields),
        item matches BulkLookupItem::Success(v) ==> v == value,
{
    if is_bulk_error_value(fields) {
        BulkLookupItem::Failure(read_bulk_error_message(fields))
    } else {
        BulkLookupItem::Success(value)
    }
}

/// Reads a bulk response body into one item per element, in order.
pub fn parse_bulk_lookup_results(body: &str) -> (r: Result<
    Vec<BulkLookupItem>,
    IpGeolocationError,
>)
    ensures
        r is Err <==> json_array_elements(body@) is None,
        r matches Err(e) ==> is_serialization_error(e, "failed to parse bulk lookup response body"@),
        r matches Ok(items) ==> items_for_body(items@, body@),
{
    let mut values = match parse_json_array(body) {
        Ok(values) => values,
        Err(error) => {
            return Err(
                IpGeolocationError::serialization(
                    "failed to parse bulk lookup response body".to_owned(),
                    json_error_text(&error),
                ),
            );
        },
    };
    let ghost elements = values@;
    let n = values.len();
    // reverse once, then pop, so that the elements come out in their order
    let mut reversed: Vec<Value> = Vec::new();
    while values.len() > 0
        invariant
            n == elements.len(),
            values@.len() + reversed@.len() == n,
            values@ == elements.subrange(0, values@.len() as int),
            forall|j: int| 0 <= j < reversed@.len() ==> #[trigger] reversed@[j] == elements[n - 1 - j],
        decreases values@.len(),
    {
        let ghost k = values@.len();
        let value = values.pop().unwrap();
        assert(value == elements[k - 1]);
        reversed.push(value);
        assert(values@ =~= elements.subrange(0, k - 1));
    }
    let mut items: Vec<BulkLookupItem> = Vec::new();
    while reversed.len() > 0
        invariant
            n == elements.len(),
            items@.len() + reversed@.len() == n,
            forall|j: int| 0 <= j < reversed@.len() ==> #[trigger] reversed@[j] == elements[n - 1 - j],
            forall|j: int| 0 <= j < items@.len() ==> item_for_element(#[trigger] items@[j], elements[j]),
        decreases reversed@.len(),
    {
        let ghost k = items@.len();
        let value = reversed.pop().unwrap();
        assert(value == elements[k as int]);
        let fields = json_fields(&value);
        let item = bulk_item_from_fields(value, &fields);
        assert(item_for_element(item, elements[k as int]));
        items.push(item);
    }
    assert(items_for_elements(items@, elements));
    Ok(items)
}

} // verus!
