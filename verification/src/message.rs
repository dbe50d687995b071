//! The wire-level data model: HTTP methods, the outbound request built by
//! the client pipeline, the fully buffered inbound response, and the route
//! parameters produced by the router.

use vstd::prelude::*;

verus! {

/// An HTTP request method.
#[derive(Clone, Copy, PartialEq, Eq, Structural)]
pub enum HttpMethod {
    /// GET
    Get,
    /// HEAD
    Head,
    /// POST
    Post,
    /// PUT
    Put,
    /// DELETE
    Delete,
    /// OPTIONS
    Options,
    /// PATCH
    Patch,
}

/// True of the methods that carry no request body on the wire.
pub open spec fn spec_is_read_only(m: HttpMethod) -> bool {
    m is Get || m is Head
}

impl HttpMethod {
    /// Whether this method is read-only (carries no request body).
    pub fn is_read_only(&self) -> (r: bool)
        ensures
            r == spec_is_read_only(*self),
    {
        match self {
            HttpMethod::Get => true,
            HttpMethod::Head => true,
            _ => false,
        }
    }
}

/// One HTTP request as the client sends it: a method, a target path, the
/// host name (sent as the `Host` header and checked against the TLS server
/// name), any further headers, and a serialized body.
pub struct OutboundRequest {
    /// The request method.
    pub method: HttpMethod,
    /// The target path.
    pub path: String,
    /// The host name, used both for the TLS server-name check and as the
    /// wire `Host` header.
    pub host: String,
    /// Any further headers, as name/value pairs.
    pub headers: Vec<(String, String)>,
    /// The serialized body; empty for read-only methods.
    pub body: Vec<u8>,
}

impl OutboundRequest {
    /// Build a request. A read-only method sends an empty body; every other
    /// method sends the serialized payload.
    pub fn new(method: HttpMethod, path: String, host: String, payload: Vec<u8>) -> (r: Self)
        ensures
            r.method == method,
            r.path@ == path@,
            r.host@ == host@,
            r.headers@.len() == 0,
            spec_is_read_only(method) ==> r.body@.len() == 0,
            !spec_is_read_only(method) ==> r.body@ == payload@,
    {
        let body = if method.is_read_only() {
            Vec::new()
        } else {
            payload
        };
        Self { method, path, host, headers: Vec::new(), body }
    }
}

/// One HTTP response as the client receives it: a status code, headers, and
/// a fully buffered body. The transport never streams; the whole body is
/// collected before the response is handed over.
pub struct InboundResponse {
    /// The HTTP status code.
    pub status: u16,
    /// The response headers, as name/value pairs.
    pub headers: Vec<(String, String)>,
    /// The fully buffered body.
    pub body: Vec<u8>,
}

impl InboundResponse {
    /// Assemble a response from its parts.
    pub fn new(status: u16, headers: Vec<(String, String)>, body: Vec<u8>) -> (r: Self)
        ensures
            r.status == status,
            r.headers@ == headers@,
            r.body@ == body@,
    {
        Self { status, headers, body }
    }
}

/// The path parameters extracted by the external router, consumed read-only
/// by the route filters.
pub struct RouteParams {
    /// The parameter name/value pairs.
    pub entries: Vec<(String, String)>,
}

impl RouteParams {
    /// Whether a parameter of this name is present.
    pub open spec fn has_key(self, name: Seq<char>) -> bool {
        exists|i: int| 0 <= i < self.entries@.len() && self.entries@[i].0@ == name
    }

    /// An empty parameter map.
    pub fn new() -> (r: Self)
        ensures
            r.entries@.len() == 0,
            forall|n: Seq<char>| !r.has_key(n),
    {
        Self { entries: Vec::new() }
    }

    /// Add a parameter.
    pub fn insert(&mut self, name: String, value: String)
        ensures
            final(self).entries@ == old(self).entries@.push((name, value)),
            final(self).has_key(name@),
            forall|n: Seq<char>|
                n != name@ ==> final(self).has_key(n) == old(self).has_key(n),
    {
        let ghost pre = *self;
        self.entries.push((name, value));
        proof {
            assert(self.entries@[pre.entries@.len() as int].0@ == name@);
            assert forall|n: Seq<char>| n != name@ implies self.has_key(n) == pre.has_key(
                n,
            ) by {
                if self.has_key(n) {
                    let i = choose|i: int|
                        0 <= i < self.entries@.len() && self.entries@[i].0@ == n;
                    assert(i < pre.entries@.len());
                    assert(pre.entries@[i].0@ == n);
                }
                if pre.has_key(n) {
                    let i = choose|i: int|
                        0 <= i < pre.entries@.len() && pre.entries@[i].0@ == n;
                    assert(self.entries@[i].0@ == n);
                }
            }
        }
    }

    /// Whether a parameter of this name is present.
    pub fn contains_key(&self, name: &str) -> (r: bool)
        ensures
            r == self.has_key(name@),
    {
        let n = self.entries.len();
        for i in 0..n
            invariant
                n == self.entries@.len(),
                forall|j: int| 0 <= j < i ==> self.entries@[j].0@ != name@,
        {
            if crate::text::str_eq(self.entries[i].0.as_str(), name) {
                return true;
            }
        }
        false
    }
}

} // verus!
