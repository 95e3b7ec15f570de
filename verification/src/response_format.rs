//! The response formats that the API can answer in.

use vstd::prelude::*;

verus! {

#[derive(Clone, Copy, Debug, PartialEq, Eq, Structural)]
pub enum ResponseFormat {
    Json,
    Xml,
}

/// The wire name of a format, sent as the `output` query parameter.
pub open spec fn format_name(f: ResponseFormat) -> Seq<char> {
    match f {
        ResponseFormat::Json => "json"@,
        ResponseFormat::Xml => "xml"@,
    }
}

impl Default for ResponseFormat {
    fn default() -> (f: Self)
        ensures
            f == ResponseFormat::Json,
    {
        ResponseFormat::Json
    }
}

impl ResponseFormat {
    pub fn as_str(&self) -> (s: &'static str)
        ensures
            s@ == format_name(*self),
    {
        match self {
            ResponseFormat::Json => "json",
            ResponseFormat::Xml => "xml",
        }
    }
}

} // verus!
