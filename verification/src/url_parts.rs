//! URL parsing and query building, done by the URL parser that `reqwest`
//! re-exports; the client reads the parsed components as plain strings.

use vstd::prelude::*;

verus! {

/// The chars of an optional string.
pub open spec fn opt_chars(o: Option<String>) -> Option<Seq<char>> {
    match o {
        Some(s) => Some(s@),
        None => None,
    }
}

/// The components of a parsed URL that the client's rules read.
pub struct UrlParts {
    /// The whole URL as the parser serializes it.
    pub serialization: String,
    pub scheme: String,
    pub username: String,
    pub password: Option<String>,
    pub host: Option<String>,
    pub path: String,
    pub query: Option<String>,
    pub fragment: Option<String>,
}

/// `UrlParts` with every string taken by its chars.
pub struct UrlPartsView {
    pub serialization: Seq<char>,
    pub scheme: Seq<char>,
    pub username: Seq<char>,
    pub password: Option<Seq<char>>,
    pub host: Option<Seq<char>>,
    pub path: Seq<char>,
    pub query: Option<Seq<char>>,
    pub fragment: Option<Seq<char>>,
}

impl View for UrlParts {
    type V = UrlPartsView;

    open spec fn view(&self) -> UrlPartsView {
        UrlPartsView {
            serialization: self.serialization@,
            scheme: self.scheme@,
            username: self.username@,
            password: opt_chars(self.password),
            host: opt_chars(self.host),
            path: self.path@,
            query: opt_chars(self.query),
            fragment: opt_chars(self.fragment),
        }
    }
}

pub open spec fn opt_parts(o: Option<UrlParts>) -> Option<UrlPartsView> {
    match o {
        Some(p) => Some(p@),
        None => None,
    }
}

/// What `Url::parse` makes of a string: `None` where it refuses it.
pub uninterp spec fn url_parse_result(input: Seq<char>) -> Option<UrlPartsView>;

/// The serialization of the URL that `Url::parse` makes of `base`, after
/// `query_pairs_mut().extend_pairs(pairs)` appended the name/value pairs.
pub uninterp spec fn url_with_query_pairs(
    base: Seq<char>,
    pairs: Seq<(Seq<char>, Seq<char>)>,
) -> Seq<char>;

/// `form_urlencoded` leaves ASCII letters, digits and `*-._` as they are.
pub open spec fn form_unchanged(b: u8) -> bool {
    ||| b == 0x2A
    ||| b == 0x2D
    ||| b == 0x2E
    ||| (0x30 <= b && b <= 0x39)
    ||| (0x41 <= b && b <= 0x5A)
    ||| b == 0x5F
    ||| (0x61 <= b && b <= 0x7A)
}

pub open spec fn hex_upper(d: nat) -> char {
    if d < 10 {
        (('0' as u32) + d) as char
    } else {
        (('A' as u32) + (d - 10)) as char
    }
}

/// How `form_urlencoded::byte_serialize` writes one byte: kept, `+` for a
/// space, else `%` and two upper-case hex digits.
pub open spec fn form_byte(b: u8) -> Seq<char> {
    if form_unchanged(b) {
        seq![b as char]
    } else if b == 0x20 {
        seq!['+']
    } else {
        seq!['%', hex_upper((b / 16) as nat), hex_upper((b % 16) as nat)]
    }
}

pub open spec fn form_bytes(bytes: Seq<u8>) -> Seq<char>
    decreases bytes.len(),
{
    if bytes.len() == 0 {
        Seq::empty()
    } else {
        form_bytes(bytes.drop_last()) + form_byte(bytes.last())
    }
}

/// A string form-urlencoded from its UTF-8 bytes.
pub open spec fn form_encoded(s: Seq<char>) -> Seq<char> {
    form_bytes(vstd::utf8::encode_utf8(s))
}

/// Name/value pairs as `name=value`, form-urlencoded and joined by `&`.
pub open spec fn form_pairs(pairs: Seq<(Seq<char>, Seq<char>)>) -> Seq<char>
    decreases pairs.len(),
{
    if pairs.len() == 0 {
        Seq::empty()
    } else {
        let last = form_encoded(pairs.last().0) + seq!['='] + form_encoded(pairs.last().1);
        if pairs.len() == 1 {
            last
        } else {
            form_pairs(pairs.drop_last()) + seq!['&'] + last
        }
    }
}

pub open spec fn pair_chars(pairs: Seq<(String, String)>) -> Seq<(Seq<char>, Seq<char>)> {
    pairs.map_values(|p: (String, String)| (p.0@, p.1@))
}

/// `reqwest::Url::parse`, read into its components (`as_str`, `scheme`,
/// `username`, `password`, `host_str`, `path`, `query`, `fragment`).
/// The contract claims only that the outcome is the one that the parser gives
/// for this input; what the parser accepts is not restated here.
#[verifier::external_body]
pub(crate) fn parse_url(input: &str) -> (r: Option<UrlParts>)
    ensures
        opt_parts(r) == url_parse_result(input@),
{
    match reqwest::Url::parse(input) {
        Ok(u) => Some(UrlParts {
            serialization: u.as_str().to_string(),
            scheme: u.scheme().to_string(),
            username: u.username().to_string(),
            password: u.password().map(str::to_string),
            host: u.host_str().map(str::to_string),
            path: u.path().to_string(),
            query: u.query().map(str::to_string),
            fragment: u.fragment().map(str::to_string),
        }),
        Err(_) => None,
    }
}

/// `reqwest::Url::parse` of `base`, then `query_pairs_mut().extend_pairs(pairs)`,
/// then the serialization. The contract claims that it succeeds exactly where
/// the parser accepts `base`, and that the text is the named result; where the
/// parsed URL has neither query nor fragment, that text is the URL, `?` and the
/// pairs form-urlencoded and joined by `&`, as `query_pairs_mut` and
/// `form_urlencoded::Serializer::append_pair` write them. On failure the
/// parser's error text is handed back, and nothing is claimed of it.
#[verifier::external_body]
pub(crate) fn append_query_pairs(base: &str, pairs: &Vec<(String, String)>) -> (r: Result<
    String,
    String,
>)
    ensures
        r is Ok <==> url_parse_result(base@) is Some,
        r matches Ok(s) ==> s@ == url_with_query_pairs(base@, pair_chars(pairs@)),
        r matches Ok(s) ==> (url_parse_result(base@)->0.query is None && url_parse_result(
            base@,
        )->0.fragment is None ==> s@ == url_parse_result(base@)->0.serialization + seq!['?']
            + form_pairs(pair_chars(pairs@))),
{
    match reqwest::Url::parse(base) {
        Ok(mut url) => {
            url.query_pairs_mut().extend_pairs(pairs.iter());
            Ok(url.into())
        },
        Err(error) => Err(error.to_string()),
    }
}

} // verus!
