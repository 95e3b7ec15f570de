//! Client types for the IPGeolocation.io IP Location API.
//!
//! The request rules, the building of each HTTP request and the reading of each
//! response are verified; the HTTP exchange itself is left to a transport.

pub mod api_response;
pub mod building;
pub mod client;
pub mod config;
pub mod errors;
pub mod json;
pub mod laws;
pub mod requests;
pub mod response_format;
pub mod responses;
pub mod str_map;
pub mod text;
pub mod transport;
pub mod url_parts;
pub mod version;

pub use api_response::{ApiResponse, ApiResponseMetadata, HeaderValues};
pub use client::IpGeolocationClient;
pub use config::IpGeolocationClientConfig;
pub use errors::{ApiError, IpGeolocationError, ValidationError};
pub use json::BulkLookupItem;
pub use requests::{BulkLookupIpGeolocationRequest, LookupIpGeolocationRequest};
pub use response_format::ResponseFormat;
pub use str_map::StrMap;
pub use transport::{ConnectTransport, HttpMethod, HttpRequestData, HttpResponseData, HttpTransport};
pub use version::VERSION;
