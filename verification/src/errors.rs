//! Error types of the platform: the failure taxonomy of the transport
//! pipeline, and the reusable error payloads that services return to
//! callers.

use vstd::prelude::*;

verus! {

/// A typed failure of the transport pipeline.
///
/// Every failure the client or server pipeline can produce is one of these
/// variants; each carries a human-readable message. The variants raised by
/// verified code are pinned down by the contracts of the functions that
/// return them; the connection-level variants are raised by the unverified
/// I/O shell when the corresponding operation fails.
#[derive(Debug)]
pub enum PlatformError {
    /// An unknown service name, or otherwise invalid configuration.
    ConfigurationError(String),
    /// A certificate file could not be opened or read.
    CertificateLoadError(String),
    /// A certificate file held no parseable certificate.
    CertificateParseError(String),
    /// TCP connect or name resolution failed.
    ConnectionError(String),
    /// The TLS handshake failed (untrusted certificate or name mismatch).
    TlsHandshakeError(String),
    /// An I/O failure while sending or receiving a request.
    TransportError(String),
    /// A response body that could not be decoded as expected.
    ResponseDecodeError(String),
    /// A non-success response whose body carried a structured error payload.
    RemoteError(String),
    /// A request rejected by a route filter before dispatch.
    RouteFilterRejection(String),
}

/// General reusable invalid parameter error
pub struct InvalidParameterError {
    /// The name of the offending parameter
    pub param: String,
    /// The value it held
    pub value: String,
    /// The predefined error message
    pub error: String,
}

impl InvalidParameterError {
    /// Construct a new instance of the InvalidParameterError struct with a
    /// predefined error message.
    pub fn new(param: String, value: String) -> (r: Self)
        ensures
            r.param@ == param@,
            r.value@ == value@,
            r.error@ == "invalid parameter"@,
    {
        Self { param, value, error: "invalid parameter".to_owned() }
    }
}

/// General reusable invalid payload error
pub struct InvalidPayloadError {
    /// A description of what was wrong with the payload
    pub message: String,
    /// The predefined error message
    pub error: String,
}

impl InvalidPayloadError {
    /// Construct a new instance of the InvalidPayloadError struct with a
    /// predefined error message.
    pub fn new(message: String) -> (r: Self)
        ensures
            r.message@ == message@,
            r.error@ == "invalid payload"@,
    {
        Self { message, error: "invalid payload".to_owned() }
    }
}

/// General reusable missing parameter error
pub struct MissingParameterError {
    /// The name of the missing parameter
    pub param: String,
    /// The predefined error message
    pub error: String,
}

impl MissingParameterError {
    /// Construct a new instance of the MissingParameterError struct with a
    /// predefined error message.
    pub fn new(param: String) -> (r: Self)
        ensures
            r.param@ == param@,
            r.error@ == "missing parameter"@,
    {
        Self { param, error: "missing parameter".to_owned() }
    }
}

/// General reusable service unavailable error
pub struct ServiceUnavailableError {
    /// The predefined error message
    pub error: String,
}

impl ServiceUnavailableError {
    /// Construct a new instance of the ServiceUnavailableError struct with a
    /// predefined error message.
    pub fn new() -> (r: Self)
        ensures
            r.error@ == "service unavailable"@,
    {
        Self { error: "service unavailable".to_owned() }
    }
}

/// General reusable entity not found error
pub struct EntityNotFoundError {
    /// The identifier that was looked up
    pub id: u64,
    /// The name of the entity type
    pub entity: String,
    /// The predefined error message
    pub error: String,
}

impl EntityNotFoundError {
    /// Construct a new instance of the EntityNotFoundError struct with a
    /// predefined error message.
    pub fn new(entity: String, id: u64) -> (r: Self)
        ensures
            r.id == id,
            r.entity@ == entity@,
            r.error@ == "entity not found"@,
    {
        Self { id, entity, error: "entity not found".to_owned() }
    }
}

/// General reusable internal server error
pub struct InternalServerError {
    /// A description of the failure
    pub error: String,
}

impl InternalServerError {
    /// Construct a new instance of the InternalServerError struct with a
    /// predefined error message.
    pub fn new(error: String) -> (r: Self)
        ensures
            r.error@ == error@,
    {
        Self { error }
    }
}

} // verus!
