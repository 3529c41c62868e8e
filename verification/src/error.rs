//! Error taxonomy for the weather pipeline.
//!
//! The classes mirror the failure-handling policy: network faults are
//! retryable, a missing resource or a bad configuration is terminal, and
//! exhausted retries aggregate the last underlying network fault.

use vstd::prelude::*;

verus! {

/// The ways a remote call can fail at the transport level.
/// Every variant of this class is retryable.
#[derive(Clone, Debug, PartialEq, Eq)]
pub enum NetworkErrorKind {
    /// The request did not complete within the allowed seconds.
    Timeout { url: String, seconds: u64 },
    /// The host name could not be resolved.
    Dns { url: String },
    /// The remote endpoint refused the connection.
    ConnectionRefused { url: String },
    /// The HTTP client itself could not be constructed.
    ClientCreation,
    /// Any other transport fault.
    Other { url: String },
}

/// A provider was constructed with unusable credentials.
#[derive(Clone, Debug, PartialEq, Eq)]
pub enum ConfigError {
    /// The credential is empty or holds characters the transport refuses.
    InvalidApiKey { reason: String },
}

/// A failure of a weather fetch.
#[derive(Clone, Debug, PartialEq, Eq)]
pub enum WeatherError {
    /// Transport fault; retryable.
    Network(NetworkErrorKind),
    /// Bad credentials at construction; never retried.
    Config(ConfigError),
    /// The provider answered with unexpected or missing fields; not retried.
    ProviderMapping { field: String },
    /// Every allowed attempt failed with a retryable fault.
    RetriesExhausted { attempts: u32, last: Option<NetworkErrorKind> },
}

/// A failure of a geocoding lookup.
#[derive(Clone, Debug, PartialEq, Eq)]
pub enum GeocodingError {
    /// The city does not exist in the index; retrying cannot change this.
    CityNotFound { city: String },
    /// Transport fault; retryable.
    Unreachable(NetworkErrorKind),
    /// Every allowed attempt failed with a retryable fault.
    RetriesExhausted { attempts: u32, last: Option<NetworkErrorKind> },
}

/// The human-readable text for each network fault, over the fault's URL.
pub open spec fn network_message_spec(e: NetworkErrorKind) -> Seq<char> {
    match e {
        NetworkErrorKind::Timeout { url, seconds } => "request timed out after "@
            + crate::text::spec_decimal(seconds as nat) + "s: "@ + url@,
        NetworkErrorKind::Dns { url } => "could not resolve host: "@ + url@,
        NetworkErrorKind::ConnectionRefused { url } => "connection refused: "@ + url@,
        NetworkErrorKind::ClientCreation => "could not build the HTTP client"@,
        NetworkErrorKind::Other { url } => "network error reaching: "@ + url@,
    }
}

impl NetworkErrorKind {
    /// A human-readable message that distinguishes the fault kinds.
    pub fn user_friendly_message(&self) -> (r: String)
        ensures
            r@ == network_message_spec(*self),
    {
        match self {
            NetworkErrorKind::Timeout { url, seconds } => {
                let count = crate::text::format_u64(*seconds);
                String::from_str("request timed out after ").concat(count.as_str()).concat(
                    "s: ",
                ).concat(url.as_str())
            },
            NetworkErrorKind::Dns { url } => {
                String::from_str("could not resolve host: ").concat(url.as_str())
            },
            NetworkErrorKind::ConnectionRefused { url } => {
                String::from_str("connection refused: ").concat(url.as_str())
            },
            NetworkErrorKind::ClientCreation => String::from_str("could not build the HTTP client"),
            NetworkErrorKind::Other { url } => {
                String::from_str("network error reaching: ").concat(url.as_str())
            },
        }
    }
}

/// The human-readable text for each geocoding failure.
pub open spec fn geocoding_message_spec(e: GeocodingError) -> Seq<char> {
    match e {
        GeocodingError::CityNotFound { city } => "city not found: "@ + city@,
        GeocodingError::Unreachable(net) => network_message_spec(net),
        GeocodingError::RetriesExhausted { .. } => "geocoding retries exhausted"@,
    }
}

impl GeocodingError {
    /// A human-readable message that distinguishes the failure kinds.
    pub fn user_friendly_message(&self) -> (r: String)
        ensures
            r@ == geocoding_message_spec(*self),
    {
        match self {
            GeocodingError::CityNotFound { city } => {
                String::from_str("city not found: ").concat(city.as_str())
            },
            GeocodingError::Unreachable(net) => net.user_friendly_message(),
            GeocodingError::RetriesExhausted { .. } => {
                String::from_str("geocoding retries exhausted")
            },
        }
    }
}

} // verus!
