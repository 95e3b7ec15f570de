//! The errors that the client reports.

use vstd::prelude::*;
use crate::text::{concat3, decimal, decimal_string};

verus! {

/// A rule on a configuration or request value was broken.
#[derive(Clone, Debug, PartialEq, Eq)]
pub struct ValidationError {
    message: String,
}

impl View for ValidationError {
    type V = Seq<char>;

    /// The message.
    closed spec fn view(&self) -> Seq<char> {
        self.message@
    }
}

impl ValidationError {
    pub fn new(message: String) -> (e: Self)
        ensures
            e@ == message@,
    {
        ValidationError { message }
    }

    pub fn message(&self) -> (m: &str)
        ensures
            m@ == self@,
    {
        self.message.as_str()
    }

    /// The text that `Display` shows: the message itself.
    pub fn to_string(&self) -> (s: String)
        ensures
            s@ == self@,
    {
        self.message.clone()
    }
}

/// The API answered with a status outside 200..=299.
#[derive(Clone, Debug, PartialEq, Eq)]
pub struct ApiError {
    status_code: u16,
    message: String,
}

impl View for ApiError {
    type V = (u16, Seq<char>);

    /// The status code and the message.
    closed spec fn view(&self) -> (u16, Seq<char>) {
        (self.status_code, self.message@)
    }
}

/// `{message} (status {status_code})`.
pub open spec fn api_error_text(status_code: u16, message: Seq<char>) -> Seq<char> {
    message + " (status "@ + decimal(status_code as nat) + ")"@
}

impl ApiError {
    pub fn new(status_code: u16, message: String) -> (e: Self)
        ensures
            e@ == (status_code, message@),
    {
        ApiError { status_code, message }
    }

    pub fn status_code(&self) -> (c: u16)
        ensures
            c == self@.0,
    {
        self.status_code
    }

    pub fn message(&self) -> (m: &str)
        ensures
            m@ == self@.1,
    {
        self.message.as_str()
    }

    /// The text that `Display` shows.
    pub fn to_string(&self) -> (s: String)
        ensures
            s@ == api_error_text(self@.0, self@.1),
    {
        let code = decimal_string(self.status_code as u64);
        let head = concat3(self.message.as_str(), " (status ", code.as_str());
        let mut text = head;
        text.append(")");
        text
    }
}

/// Every way in which a call of the client can fail.
#[derive(Clone, Debug, PartialEq, Eq)]
pub enum IpGeolocationError {
    Validation(ValidationError),
    Api(ApiError),
    RequestTimeout(String),
    /// The request could not be carried out; `source` describes the cause.
    Transport { message: String, source: Option<String> },
    /// A body could not be encoded or decoded; `source` describes the cause.
    Serialization { message: String, source: Option<String> },
    ClientClosed,
}

/// The text that `Display` shows for an error.
pub open spec fn error_text(e: IpGeolocationError) -> Seq<char> {
    match e {
        IpGeolocationError::Validation(v) => v@,
        IpGeolocationError::Api(a) => api_error_text(a@.0, a@.1),
        IpGeolocationError::RequestTimeout(m) => m@,
        IpGeolocationError::Transport { message, .. } => message@,
        IpGeolocationError::Serialization { message, .. } => message@,
        IpGeolocationError::ClientClosed => "client is closed"@,
    }
}

/// A validation error with the given message.
pub open spec fn is_validation_error(e: IpGeolocationError, message: Seq<char>) -> bool {
    e matches IpGeolocationError::Validation(v) && v@ == message
}

/// A transport error with the given message and no cause.
pub open spec fn is_transport_message(e: IpGeolocationError, message: Seq<char>) -> bool {
    e matches IpGeolocationError::Transport { message: m, source } && m@ == message
        && source is None
}

/// A serialization error with the given message.
pub open spec fn is_serialization_error(e: IpGeolocationError, message: Seq<char>) -> bool {
    e matches IpGeolocationError::Serialization { message: m, .. } && m@ == message
}

impl IpGeolocationError {
    pub fn validation_message(message: String) -> (e: Self)
        ensures
            is_validation_error(e, message@),
    {
        IpGeolocationError::Validation(ValidationError::new(message))
    }

    pub fn request_timeout(message: String) -> (e: Self)
        ensures
            e == IpGeolocationError::RequestTimeout(message),
    {
        IpGeolocationError::RequestTimeout(message)
    }

    pub fn transport(message: String, source: String) -> (e: Self)
        ensures
            e == (IpGeolocationError::Transport { message, source: Some(source) }),
    {
        IpGeolocationError::Transport { message, source: Some(source) }
    }

    pub fn transport_message(message: String) -> (e: Self)
        ensures
            e == (IpGeolocationError::Transport { message, source: None }),
    {
        IpGeolocationError::Transport { message, source: None }
    }

    pub fn serialization(message: String, source: String) -> (e: Self)
        ensures
            e == (IpGeolocationError::Serialization { message, source: Some(source) }),
    {
        IpGeolocationError::Serialization { message, source: Some(source) }
    }

    /// The text that `Display` shows.
    pub fn to_string(&self) -> (s: String)
        ensures
            s@ == error_text(*self),
    {
        match self {
            IpGeolocationError::Validation(v) => v.to_string(),
            IpGeolocationError::Api(a) => a.to_string(),
            IpGeolocationError::RequestTimeout(m) => m.clone(),
            IpGeolocationError::Transport { message, .. } => message.clone(),
            IpGeolocationError::Serialization { message, .. } => message.clone(),
            IpGeolocationError::ClientClosed => "client is closed".to_owned(),
        }
    }

    /// The text of the underlying error, where there is one: the validation
    /// or API error itself, or the cause of a transport or serialization failure.
    pub fn source_text(&self) -> (s: Option<String>)
        ensures
            match *self {
                IpGeolocationError::Validation(v) => s matches Some(t) && t@ == v@,
                IpGeolocationError::Api(a) => s matches Some(t) && t@ == api_error_text(a@.0, a@.1),
                IpGeolocationError::Transport { source, .. } => match source {
                    Some(t) => s matches Some(u) && u@ == t@,
                    None => s is None,
                },
                IpGeolocationError::Serialization { source, .. } => match source {
                    Some(t) => s matches Some(u) && u@ == t@,
                    None => s is None,
                },
                _ => s is None,
            },
    {
        match self {
            IpGeolocationError::Validation(v) => Some(v.to_string()),
            IpGeolocationError::Api(a) => Some(a.to_string()),
            IpGeolocationError::Transport { source, .. } => match source {
                Some(t) => Some(t.clone()),
                None => None,
            },
            IpGeolocationError::Serialization { source, .. } => match source {
                Some(t) => Some(t.clone()),
                None => None,
            },
            _ => None,
        }
    }
}

impl From<ValidationError> for IpGeolocationError {
    fn from(value: ValidationError) -> Self {
        IpGeolocationError::Validation(value)
    }
}

impl vstd::std_specs::convert::FromSpecImpl<ValidationError> for IpGeolocationError {
    open spec fn obeys_from_spec() -> bool {
        true
    }

    open spec fn from_spec(v: ValidationError) -> IpGeolocationError {
        IpGeolocationError::Validation(v)
    }
}

impl From<ApiError> for IpGeolocationError {
    fn from(value: ApiError) -> Self {
        IpGeolocationError::Api(value)
    }
}

impl vstd::std_specs::convert::FromSpecImpl<ApiError> for IpGeolocationError {
    open spec fn obeys_from_spec() -> bool {
        true
    }

    open spec fn from_spec(v: ApiError) -> IpGeolocationError {
        IpGeolocationError::Api(v)
    }
}

} // verus!
