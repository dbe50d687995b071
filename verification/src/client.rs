//! The client-side call pipeline: resolve the target service, build the
//! outbound request, and interpret the buffered response. The actual
//! connection, handshake and wire I/O are driven by the unverified shell,
//! which hands the buffered response back to [`interpret_response`].

use vstd::prelude::*;

use crate::errors::PlatformError;
use crate::message::spec_is_read_only;
use crate::message::HttpMethod;
use crate::message::InboundResponse;
use crate::message::OutboundRequest;
use crate::registry::ServiceProfile;
use crate::registry::ServiceRegistry;

verus! {

/// `serde_json::Value`, declared so that the parse wrapper below can return
/// it; the value itself is opaque to the verified code.
#[verifier::external_type_specification]
#[verifier::external_body]
pub struct ExValue(serde_json::Value);

/// Whether a byte sequence parses as a JSON document — whether
/// `serde_json::from_slice::<serde_json::Value>` succeeds on it.
pub uninterp spec fn json_parses(bytes: Seq<u8>) -> bool;

/// Relies on `serde_json::from_slice::<serde_json::Value>`: whether a byte
/// slice parses as JSON is a function of the bytes alone.
#[verifier::external_body]
fn parse_json_value(bytes: &[u8]) -> (r: Option<serde_json::Value>)
    ensures
        r is Some <==> json_parses(bytes@),
{
    serde_json::from_slice::<serde_json::Value>(bytes).ok()
}

/// Relies on the `Display` rendering of `serde_json::Value`: every JSON
/// value renders to at least one character of JSON text.
#[verifier::external_body]
fn render_json_value(v: &serde_json::Value) -> (r: String)
    ensures
        r@.len() > 0,
{
    v.to_string()
}

/// Interpret a fully buffered wire response. Exactly status 200 is success,
/// and the body is handed back untouched for typed decoding; any other
/// status is an application-level failure whose body is expected to carry a
/// structured JSON error payload. A parseable payload becomes a remote
/// error wrapping its rendering; anything else is a decode failure.
pub fn interpret_response(res: InboundResponse) -> (r: Result<Vec<u8>, PlatformError>)
    ensures
        r is Ok <==> res.status == 200,
        r matches Ok(body) ==> body@ == res.body@,
        res.status != 200 && json_parses(res.body@) ==> (r matches Err(e) && e is RemoteError),
        res.status != 200 && !json_parses(res.body@) ==> (r matches Err(e)
            && e is ResponseDecodeError),
{
    if res.status == 200 {
        Ok(res.body)
    } else {
        match parse_json_value(res.body.as_slice()) {
            Some(payload) => Err(PlatformError::RemoteError(render_json_value(&payload))),
            None => Err(
                PlatformError::ResponseDecodeError(
                    "error response body is not a structured payload".to_owned(),
                ),
            ),
        }
    }
}

/// Resolve the target service in the registry and build the outbound
/// request for one call: the decision pipeline ahead of the connection
/// attempt. Succeeds exactly when the service name is registered; the
/// request carries the given method, path and host, and an empty body for a
/// read-only method, the serialized payload otherwise.
pub fn prepare_dispatch(
    registry: &ServiceRegistry,
    service: &str,
    method: HttpMethod,
    path: String,
    host: String,
    payload: Vec<u8>,
) -> (r: Result<(ServiceProfile, OutboundRequest), PlatformError>)
    requires
        registry.wf(),
    ensures
        r is Ok <==> registry.contains_name(service@),
        r matches Ok(p) ==> p.0.address@ == registry.address_of(service@) && p.1.method == method
            && p.1.path@ == path@ && p.1.host@ == host@ && p.1.headers@.len() == 0 && (
        spec_is_read_only(method) ==> p.1.body@.len() == 0) && (!spec_is_read_only(method)
            ==> p.1.body@ == payload@),
        r matches Err(e) ==> e is ConfigurationError,
{
    match registry.lookup(service) {
        Ok(profile) => {
            let request = OutboundRequest::new(method, path, host, payload);
            Ok((profile, request))
        },
        Err(e) => Err(e),
    }
}

} // verus!
