//! The server side: the lifecycle of the listener and of each accepted
//! connection as explicit state machines, the selection of the server's
//! certificate and key material, and the rule that a dispatched response is
//! written back to the wire verbatim. The unverified shell owns the sockets
//! and drives these machines with the events it observes.

use vstd::prelude::*;
use vstd::string::StringExecFns;

use crate::errors::PlatformError;
use crate::message::InboundResponse;
use crate::trust::pem_certs_of;
use crate::trust::pem_parses;
use crate::trust::pem_pkcs8_keys_of;
use crate::trust::pem_pkcs8_parses;

verus! {

/// The lifecycle of the listening server itself: idle until the bind
/// succeeds, then listening until the process is torn down. A bind failure
/// is fatal and reported to the caller; the accept loop has no normal
/// termination path.
#[derive(Clone, Copy, PartialEq, Eq, Structural)]
pub enum ServerState {
    /// Not yet bound.
    Idle,
    /// Bound and accepting connections.
    Listening,
}

/// An event observed by the listener loop.
#[derive(Clone, Copy, PartialEq, Eq, Structural)]
pub enum ServerEvent {
    /// The bind succeeded.
    BindSucceeded,
    /// The bind failed.
    BindFailed,
    /// A new connection was accepted.
    ConnectionArrived,
    /// A connection's handler task ended (normally or on error).
    ConnectionTaskEnded,
}

/// What the shell must do next after a listener step.
#[derive(Clone, Copy, PartialEq, Eq, Structural)]
pub enum ServerAction {
    /// Block on the next accept.
    AcceptNext,
    /// Spawn an independent handler task for the accepted connection, then
    /// block on the next accept.
    SpawnHandler,
    /// Surface the bind failure to the caller.
    ReportBindFailure,
    /// The event does not apply in this state; do nothing.
    Ignore,
}

/// The transition table of the listener: what follows each event in each
/// state.
pub open spec fn spec_server_step(s: ServerState, e: ServerEvent) -> (ServerState, ServerAction) {
    match (s, e) {
        (ServerState::Idle, ServerEvent::BindSucceeded) => (
            ServerState::Listening,
            ServerAction::AcceptNext,
        ),
        (ServerState::Idle, ServerEvent::BindFailed) => (
            ServerState::Idle,
            ServerAction::ReportBindFailure,
        ),
        (ServerState::Idle, _) => (ServerState::Idle, ServerAction::Ignore),
        (ServerState::Listening, ServerEvent::ConnectionArrived) => (
            ServerState::Listening,
            ServerAction::SpawnHandler,
        ),
        (ServerState::Listening, ServerEvent::ConnectionTaskEnded) => (
            ServerState::Listening,
            ServerAction::AcceptNext,
        ),
        (ServerState::Listening, _) => (ServerState::Listening, ServerAction::Ignore),
    }
}

/// Advance the listener by one observed event.
pub fn server_step(s: ServerState, e: ServerEvent) -> (r: (ServerState, ServerAction))
    ensures
        r == spec_server_step(s, e),
{
    match (s, e) {
        (ServerState::Idle, ServerEvent::BindSucceeded) => (
            ServerState::Listening,
            ServerAction::AcceptNext,
        ),
        (ServerState::Idle, ServerEvent::BindFailed) => (
            ServerState::Idle,
            ServerAction::ReportBindFailure,
        ),
        (ServerState::Idle, _) => (ServerState::Idle, ServerAction::Ignore),
        (ServerState::Listening, ServerEvent::ConnectionArrived) => (
            ServerState::Listening,
            ServerAction::SpawnHandler,
        ),
        (ServerState::Listening, ServerEvent::ConnectionTaskEnded) => (
            ServerState::Listening,
            ServerAction::AcceptNext,
        ),
        (ServerState::Listening, _) => (ServerState::Listening, ServerAction::Ignore),
    }
}

/// The lifecycle of one accepted connection.
#[derive(Clone, Copy, PartialEq, Eq, Structural)]
pub enum ConnectionState {
    /// Accepted, transport not yet decided.
    Accepted,
    /// Performing the server-side TLS handshake.
    TlsHandshaking,
    /// Serving buffered requests.
    Serving,
    /// Closed; terminal.
    Closed,
}

/// An event observed by one connection's handler task.
#[derive(Clone, Copy, PartialEq, Eq, Structural)]
pub enum ConnectionEvent {
    /// The connection is to be served over TLS.
    BeginTls,
    /// The connection is to be served in plaintext.
    BeginPlain,
    /// The server-side TLS handshake succeeded.
    HandshakeSucceeded,
    /// The server-side TLS handshake failed.
    HandshakeFailed,
    /// One request was served on the connection.
    RequestHandled,
    /// The peer closed the connection.
    PeerClosed,
    /// A connection-level protocol error occurred.
    ProtocolError,
}

/// What the shell must do next after a connection step.
#[derive(Clone, Copy, PartialEq, Eq, Structural)]
pub enum ConnectionAction {
    /// Perform the server-side TLS handshake.
    PerformHandshake,
    /// Serve the next buffered request on the connection.
    ServeRequests,
    /// Log the failure and close this connection only.
    LogAndClose,
    /// Close the connection without logging.
    CloseQuietly,
    /// The event does not apply in this state; do nothing.
    Ignore,
}

/// The transition table of one connection: per the lifecycle
/// `Accepted → [TlsHandshaking →] Serving → Closed`. A protocol error or a
/// failed handshake closes this connection only — the listener and sibling
/// connections are unaffected, which `spec_server_step` states separately.
pub open spec fn spec_connection_step(s: ConnectionState, e: ConnectionEvent) -> (
    ConnectionState,
    ConnectionAction,
) {
    match (s, e) {
        (ConnectionState::Accepted, ConnectionEvent::BeginTls) => (
            ConnectionState::TlsHandshaking,
            ConnectionAction::PerformHandshake,
        ),
        (ConnectionState::Accepted, ConnectionEvent::BeginPlain) => (
            ConnectionState::Serving,
            ConnectionAction::ServeRequests,
        ),
        (ConnectionState::Accepted, _) => (ConnectionState::Accepted, ConnectionAction::Ignore),
        (ConnectionState::TlsHandshaking, ConnectionEvent::HandshakeSucceeded) => (
            ConnectionState::Serving,
            ConnectionAction::ServeRequests,
        ),
        (ConnectionState::TlsHandshaking, ConnectionEvent::HandshakeFailed) => (
            ConnectionState::Closed,
            ConnectionAction::LogAndClose,
        ),
        (ConnectionState::TlsHandshaking, _) => (
            ConnectionState::TlsHandshaking,
            ConnectionAction::Ignore,
        ),
        (ConnectionState::Serving, ConnectionEvent::RequestHandled) => (
            ConnectionState::Serving,
            ConnectionAction::ServeRequests,
        ),
        (ConnectionState::Serving, ConnectionEvent::PeerClosed) => (
            ConnectionState::Closed,
            ConnectionAction::CloseQuietly,
        ),
        (ConnectionState::Serving, ConnectionEvent::ProtocolError) => (
            ConnectionState::Closed,
            ConnectionAction::LogAndClose,
        ),
        (ConnectionState::Serving, _) => (ConnectionState::Serving, ConnectionAction::Ignore),
        (ConnectionState::Closed, _) => (ConnectionState::Closed, ConnectionAction::Ignore),
    }
}

/// Advance one connection by one observed event.
pub fn connection_step(s: ConnectionState, e: ConnectionEvent) -> (r: (
    ConnectionState,
    ConnectionAction,
))
    ensures
        r == spec_connection_step(s, e),
{
    match (s, e) {
        (ConnectionState::Accepted, ConnectionEvent::BeginTls) => (
            ConnectionState::TlsHandshaking,
            ConnectionAction::PerformHandshake,
        ),
        (ConnectionState::Accepted, ConnectionEvent::BeginPlain) => (
            ConnectionState::Serving,
            ConnectionAction::ServeRequests,
        ),
        (ConnectionState::Accepted, _) => (ConnectionState::Accepted, ConnectionAction::Ignore),
        (ConnectionState::TlsHandshaking, ConnectionEvent::HandshakeSucceeded) => (
            ConnectionState::Serving,
            ConnectionAction::ServeRequests,
        ),
        (ConnectionState::TlsHandshaking, ConnectionEvent::HandshakeFailed) => (
            ConnectionState::Closed,
            ConnectionAction::LogAndClose,
        ),
        (ConnectionState::TlsHandshaking, _) => (
            ConnectionState::TlsHandshaking,
            ConnectionAction::Ignore,
        ),
        (ConnectionState::Serving, ConnectionEvent::RequestHandled) => (
            ConnectionState::Serving,
            ConnectionAction::ServeRequests,
        ),
        (ConnectionState::Serving, ConnectionEvent::PeerClosed) => (
            ConnectionState::Closed,
            ConnectionAction::CloseQuietly,
        ),
        (ConnectionState::Serving, ConnectionEvent::ProtocolError) => (
            ConnectionState::Closed,
            ConnectionAction::LogAndClose,
        ),
        (ConnectionState::Serving, _) => (ConnectionState::Serving, ConnectionAction::Ignore),
        (ConnectionState::Closed, _) => (ConnectionState::Closed, ConnectionAction::Ignore),
    }
}

/// The position of a connection state in the lifecycle order.
pub open spec fn connection_phase_rank(s: ConnectionState) -> int {
    match s {
        ConnectionState::Accepted => 0,
        ConnectionState::TlsHandshaking => 1,
        ConnectionState::Serving => 2,
        ConnectionState::Closed => 3,
    }
}

/// Law: a connection-level event never leaves the listening state — a slow,
/// failing or closing connection never stops the accept loop.
pub proof fn lemma_listener_survives_connections(e: ServerEvent)
    requires
        e is ConnectionArrived || e is ConnectionTaskEnded,
    ensures
        spec_server_step(ServerState::Listening, e).0 is Listening,
{
}

/// Law: a connection moves only forward through its lifecycle
/// `Accepted → TlsHandshaking → Serving → Closed`; no event reopens an
/// earlier phase, and `Closed` is terminal.
pub proof fn lemma_connection_phase_monotonic(s: ConnectionState, e: ConnectionEvent)
    ensures
        connection_phase_rank(spec_connection_step(s, e).0) >= connection_phase_rank(s),
        s is Closed ==> spec_connection_step(s, e).0 is Closed,
{
}

/// The server's own key material for TLS termination: a certificate chain
/// and one PKCS#8 private key.
pub struct ServerIdentity {
    /// The DER bodies of the server certificate chain.
    pub cert_chain: Vec<Vec<u8>>,
    /// The DER body of the server's private key.
    pub key: Vec<u8>,
}

impl ServerIdentity {
    /// Select the server's identity from extracted DER material: the whole
    /// certificate chain and the first private key. Succeeds exactly when
    /// both a certificate and a key are present.
    pub fn from_material(certs: Vec<Vec<u8>>, keys: Vec<Vec<u8>>) -> (r: Result<
        ServerIdentity,
        PlatformError,
    >)
        ensures
            r is Ok <==> (certs@.len() > 0 && keys@.len() > 0),
            r matches Ok(id) ==> id.cert_chain == certs && id.key == keys@[0],
            r matches Err(e) ==> e is CertificateParseError,
    {
        if certs.len() == 0 || keys.len() == 0 {
            return Err(
                PlatformError::CertificateParseError(
                    "server identity material is incomplete".to_owned(),
                ),
            );
        }
        let mut keys = keys;
        let key = keys.remove(0);
        Ok(ServerIdentity { cert_chain: certs, key })
    }

    /// Parse the PEM certificate-chain and key files' bytes and select the
    /// server's identity. Succeeds exactly when both files are well-formed
    /// PEM, the certificate bytes parse to at least one certificate, and the
    /// key bytes to at least one PKCS#8 key.
    pub fn load_from_pem(certs_pem: &[u8], keys_pem: &[u8]) -> (r: Result<
        ServerIdentity,
        PlatformError,
    >)
        ensures
            r is Ok <==> pem_parses(certs_pem@) && pem_certs_of(certs_pem@).len() > 0
                && pem_pkcs8_parses(keys_pem@) && pem_pkcs8_keys_of(keys_pem@).len() > 0,
            r matches Ok(id) ==> id.cert_chain.deep_view() == pem_certs_of(certs_pem@)
                && id.key@ == pem_pkcs8_keys_of(keys_pem@)[0],
            r matches Err(e) ==> e is CertificateParseError,
            certs_pem@.len() == 0 || keys_pem@.len() == 0 ==> r is Err,
    {
        let certs = match crate::trust::parse_pem_certificates(certs_pem) {
            Some(certs) => certs,
            None => {
                return Err(
                    PlatformError::CertificateParseError(
                        "server certificate chain is not well-formed PEM".to_owned(),
                    ),
                );
            },
        };
        let keys = match crate::trust::parse_pem_pkcs8_keys(keys_pem) {
            Some(keys) => keys,
            None => {
                return Err(
                    PlatformError::CertificateParseError(
                        "server key file is not well-formed PEM".to_owned(),
                    ),
                );
            },
        };
        proof {
            assert(certs.deep_view().len() == certs@.len());
            assert(keys.deep_view().len() == keys@.len());
        }
        Self::from_material(certs, keys)
    }
}

/// The conventional location of the server's certificate chain for a
/// service: `{root}/{service}/rsa/end.cert`.
pub fn identity_cert_path(cert_root: &str, service_name: &str) -> (r: String)
    ensures
        r@ == cert_root@ + "/"@ + service_name@ + "/rsa/end.cert"@,
{
    let mut path = cert_root.to_owned();
    path.append("/");
    path.append(service_name);
    path.append("/rsa/end.cert");
    path
}

/// The conventional location of the server's private key for a service:
/// `{root}/{service}/rsa/end.key`.
pub fn identity_key_path(cert_root: &str, service_name: &str) -> (r: String)
    ensures
        r@ == cert_root@ + "/"@ + service_name@ + "/rsa/end.key"@,
{
    let mut path = cert_root.to_owned();
    path.append("/");
    path.append(service_name);
    path.append("/rsa/end.key");
    path
}

/// Frame the route dispatcher's outcome for the wire: the server writes
/// back exactly what the dispatcher returned — status, headers and body,
/// byte for byte.
pub fn frame_reply(dispatched: InboundResponse) -> (r: InboundResponse)
    ensures
        r.status == dispatched.status,
        r.headers@ == dispatched.headers@,
        r.body@ == dispatched.body@,
{
    dispatched
}

/// Law (round trip): when the route dispatcher answers with status 200,
/// framing that answer on the server and interpreting the same bytes on the
/// client hands the caller exactly the dispatcher's body, byte for byte,
/// under the same status and headers on the wire.
pub proof fn lemma_round_trip(
    dispatched: InboundResponse,
    framed: InboundResponse,
    delivered: Result<Vec<u8>, PlatformError>,
)
    requires
        dispatched.status == 200,
        call_ensures(frame_reply, (dispatched,), framed),
        call_ensures(crate::client::interpret_response, (framed,), delivered),
    ensures
        framed.status == dispatched.status,
        framed.headers@ == dispatched.headers@,
        framed.body@ == dispatched.body@,
        delivered matches Ok(body) && body@ == dispatched.body@,
{
}

} // verus!
