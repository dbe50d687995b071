//! A mutual-TLS request/response transport layer for service-to-service
//! calls inside a microservice platform.
//!
//! The library covers the verified core of the platform: the service
//! registry that resolves logical names to addresses, the trust-bundle
//! construction used for per-call TLS authentication, the request-building
//! and response-interpretation rules of the client pipeline, the server
//! connection state machine, and the concrete request filters. The
//! surrounding I/O (sockets, TLS handshakes, HTTP framing) is driven by an
//! unverified shell that hands plain values to and from this crate.

pub mod client;
pub mod errors;
pub mod filters;
pub mod message;
pub mod registry;
pub mod responses;
pub mod server;
pub mod text;
pub mod trust;

pub use errors::EntityNotFoundError;
pub use errors::InternalServerError;
pub use errors::InvalidParameterError;
pub use errors::InvalidPayloadError;
pub use errors::MissingParameterError;
pub use errors::PlatformError;
pub use errors::ServiceUnavailableError;
pub use filters::default_filters;
pub use filters::PostFilter;
pub use filters::PutFilter;
pub use filters::RequestFilterOutcome;
pub use filters::ResponseFilterOutcome;
pub use filters::RouteFilter;
pub use responses::ApiResponse;
pub use responses::EntityWithId;
pub use responses::SeqApiResponse;
