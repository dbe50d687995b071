use rustserve_platform::client::interpret_response;
use rustserve_platform::client::prepare_dispatch;
use rustserve_platform::errors::PlatformError;
use rustserve_platform::message::HttpMethod;
use rustserve_platform::message::InboundResponse;
use rustserve_platform::message::OutboundRequest;
use rustserve_platform::registry::ServiceProfile;
use rustserve_platform::registry::ServiceRegistry;
use rustserve_platform::server::frame_reply;
use rustserve_platform::server::identity_cert_path;
use rustserve_platform::server::identity_key_path;
use rustserve_platform::server::connection_step;
use rustserve_platform::server::server_step;
use rustserve_platform::server::ConnectionAction;
use rustserve_platform::server::ConnectionEvent;
use rustserve_platform::server::ConnectionState;
use rustserve_platform::server::ServerAction;
use rustserve_platform::server::ServerEvent;
use rustserve_platform::server::ServerState;

#[test]
fn read_only_methods_send_an_empty_body() {
    let get = OutboundRequest::new(
        HttpMethod::Get,
        "/users/42".to_string(),
        "users.internal".to_string(),
        b"ignored".to_vec(),
    );
    assert!(get.body.is_empty());
    let head = OutboundRequest::new(
        HttpMethod::Head,
        "/users/42".to_string(),
        "users.internal".to_string(),
        b"ignored".to_vec(),
    );
    assert!(head.body.is_empty());
    let post = OutboundRequest::new(
        HttpMethod::Post,
        "/users".to_string(),
        "users.internal".to_string(),
        b"payload".to_vec(),
    );
    assert_eq!(post.body, b"payload".to_vec());
}

#[test]
fn status_200_hands_the_body_back_untouched() {
    let res = InboundResponse::new(200, Vec::new(), b"{\"id\":42}".to_vec());
    let body = interpret_response(res).unwrap();
    assert_eq!(body, b"{\"id\":42}".to_vec());
}

#[test]
fn non_200_with_structured_payload_is_a_remote_error() {
    let res = InboundResponse::new(
        503,
        Vec::new(),
        br#"{"error":"service unavailable"}"#.to_vec(),
    );
    match interpret_response(res) {
        Err(PlatformError::RemoteError(message)) => {
            // The message is the JSON rendering of the parsed payload, not
            // the raw bytes: serde_json orders object keys.
            assert_eq!(message, r#"{"error":"service unavailable"}"#);
        }
        other => panic!("expected a remote error, got {other:?}"),
    }
}

#[test]
fn remote_error_message_is_a_rendering_not_the_raw_bytes() {
    let res = InboundResponse::new(500, Vec::new(), br#"{"b":1,"a":2}"#.to_vec());
    match interpret_response(res) {
        Err(PlatformError::RemoteError(message)) => {
            assert_eq!(message, r#"{"a":2,"b":1}"#);
        }
        _ => panic!("expected a remote error"),
    }
}

#[test]
fn non_200_with_unparseable_body_is_a_decode_error() {
    let res = InboundResponse::new(500, Vec::new(), b"not json at all".to_vec());
    assert!(matches!(
        interpret_response(res),
        Err(PlatformError::ResponseDecodeError(_))
    ));
}

#[test]
fn round_trip_preserves_the_dispatched_response() {
    let dispatched = InboundResponse::new(
        200,
        vec![("content-type".to_string(), "application/json".to_string())],
        br#"{"entity_name":"users","entity":{"id":42}}"#.to_vec(),
    );
    let expected_body = dispatched.body.clone();
    let framed = frame_reply(dispatched);
    assert_eq!(framed.status, 200);
    assert_eq!(framed.headers.len(), 1);
    let delivered = interpret_response(framed).unwrap();
    assert_eq!(delivered, expected_body);
}

#[test]
fn prepare_dispatch_resolves_and_builds_the_request() {
    let mut reg = ServiceRegistry::new();
    reg.register(
        "users".to_string(),
        ServiceProfile::new("127.0.0.1:9001".to_string()),
    );
    let (profile, request) = prepare_dispatch(
        &reg,
        "users",
        HttpMethod::Get,
        "/users/42".to_string(),
        "users.internal".to_string(),
        Vec::new(),
    )
    .unwrap();
    assert_eq!(profile.address, "127.0.0.1:9001");
    assert!(matches!(request.method, HttpMethod::Get));
    assert_eq!(request.path, "/users/42");
    assert_eq!(request.host, "users.internal");
    assert!(request.body.is_empty());
}

#[test]
fn prepare_dispatch_unknown_service_is_a_configuration_error() {
    let reg = ServiceRegistry::new();
    let r = prepare_dispatch(
        &reg,
        "users",
        HttpMethod::Get,
        "/users/42".to_string(),
        "users.internal".to_string(),
        Vec::new(),
    );
    assert!(matches!(r, Err(PlatformError::ConfigurationError(_))));
}

#[test]
fn users_service_scenario_end_to_end_decisions() {
    // Registry {"users": "127.0.0.1:9001"}; a GET call to /users/42 with
    // host users.internal; the route dispatcher answers 200 with a JSON
    // body, which the client decodes into the expected shape.
    let mut reg = ServiceRegistry::new();
    reg.register(
        "users".to_string(),
        ServiceProfile::new("127.0.0.1:9001".to_string()),
    );
    let (profile, request) = prepare_dispatch(
        &reg,
        "users",
        HttpMethod::Get,
        "/users/42".to_string(),
        "users.internal".to_string(),
        Vec::new(),
    )
    .unwrap();
    assert_eq!(profile.address, "127.0.0.1:9001");

    // The server passes the dispatcher's answer to the wire verbatim.
    let dispatched = InboundResponse::new(
        200,
        Vec::new(),
        br#"{"entity_name":"users","entity":{"id":42,"name":"someone"}}"#.to_vec(),
    );
    let framed = frame_reply(dispatched);
    let body = interpret_response(framed).unwrap();

    // The caller decodes the bytes into the expected typed value.
    let value: serde_json::Value = serde_json::from_slice(&body).unwrap();
    assert_eq!(value["entity_name"], serde_json::Value::String("users".to_string()));
    assert_eq!(value["entity"]["id"], serde_json::Value::from(42u64));
    assert!(request.body.is_empty());
}

#[test]
fn listener_state_machine_follows_the_table() {
    let (s, a) = server_step(ServerState::Idle, ServerEvent::BindSucceeded);
    assert!(matches!(s, ServerState::Listening));
    assert!(matches!(a, ServerAction::AcceptNext));

    let (s, a) = server_step(ServerState::Idle, ServerEvent::BindFailed);
    assert!(matches!(s, ServerState::Idle));
    assert!(matches!(a, ServerAction::ReportBindFailure));

    let (s, a) = server_step(ServerState::Listening, ServerEvent::ConnectionArrived);
    assert!(matches!(s, ServerState::Listening));
    assert!(matches!(a, ServerAction::SpawnHandler));

    let (s, a) = server_step(ServerState::Listening, ServerEvent::ConnectionTaskEnded);
    assert!(matches!(s, ServerState::Listening));
    assert!(matches!(a, ServerAction::AcceptNext));
}

#[test]
fn connection_state_machine_follows_the_lifecycle() {
    let (s, a) = connection_step(ConnectionState::Accepted, ConnectionEvent::BeginTls);
    assert!(matches!(s, ConnectionState::TlsHandshaking));
    assert!(matches!(a, ConnectionAction::PerformHandshake));

    let (s, a) = connection_step(ConnectionState::TlsHandshaking, ConnectionEvent::HandshakeSucceeded);
    assert!(matches!(s, ConnectionState::Serving));
    assert!(matches!(a, ConnectionAction::ServeRequests));

    let (s, a) = connection_step(ConnectionState::TlsHandshaking, ConnectionEvent::HandshakeFailed);
    assert!(matches!(s, ConnectionState::Closed));
    assert!(matches!(a, ConnectionAction::LogAndClose));

    let (s, a) = connection_step(ConnectionState::Accepted, ConnectionEvent::BeginPlain);
    assert!(matches!(s, ConnectionState::Serving));
    assert!(matches!(a, ConnectionAction::ServeRequests));

    let (s, a) = connection_step(ConnectionState::Serving, ConnectionEvent::RequestHandled);
    assert!(matches!(s, ConnectionState::Serving));
    assert!(matches!(a, ConnectionAction::ServeRequests));

    let (s, a) = connection_step(ConnectionState::Serving, ConnectionEvent::ProtocolError);
    assert!(matches!(s, ConnectionState::Closed));
    assert!(matches!(a, ConnectionAction::LogAndClose));

    let (s, a) = connection_step(ConnectionState::Serving, ConnectionEvent::PeerClosed);
    assert!(matches!(s, ConnectionState::Closed));
    assert!(matches!(a, ConnectionAction::CloseQuietly));

    // Closed is terminal, whatever arrives.
    for e in [
        ConnectionEvent::BeginTls,
        ConnectionEvent::BeginPlain,
        ConnectionEvent::HandshakeSucceeded,
        ConnectionEvent::RequestHandled,
        ConnectionEvent::ProtocolError,
    ] {
        let (s, _) = connection_step(ConnectionState::Closed, e);
        assert!(matches!(s, ConnectionState::Closed));
    }
}

#[test]
fn identity_paths_follow_the_directory_convention() {
    assert_eq!(
        identity_cert_path("/etc/certs", "users"),
        "/etc/certs/users/rsa/end.cert"
    );
    assert_eq!(
        identity_key_path("/etc/certs", "users"),
        "/etc/certs/users/rsa/end.key"
    );
    assert_eq!(identity_cert_path(".", "billing"), "./billing/rsa/end.cert");
}
