//! The two concrete request-phase route filters. POST denotes creation and
//! must not target an existing identified resource through the path; PUT
//! denotes update-by-identifier and must target one. The filters enforce
//! this uniformly, before a request reaches the route dispatcher.

use vstd::prelude::*;

use crate::message::InboundResponse;
use crate::message::OutboundRequest;
use crate::message::RouteParams;
use crate::text::clone_bytes;

verus! {

/// Outcome of a request-phase filter: either the request and its route
/// parameters pass through unchanged, or the request is rejected with a
/// prepared failure response before it reaches the route dispatcher.
pub enum RequestFilterOutcome {
    /// The request proceeds to dispatch.
    Pass(OutboundRequest, RouteParams),
    /// The request is rejected with this response.
    Fail(InboundResponse),
}

/// Outcome of a response-phase filter.
pub enum ResponseFilterOutcome {
    /// The response proceeds unchanged.
    Pass(InboundResponse),
    /// The response is replaced with this one.
    Fail(InboundResponse),
}

/// A filter for POST requests that only allows a request through if the
/// route parameters do not contain the ID param.
pub struct PostFilter {
    /// The name of the entity's identifier route parameter.
    pub id_key: String,
    /// The status of the prepared not-found response.
    pub not_found_status: u16,
    /// The body of the prepared not-found response.
    pub not_found_body: Vec<u8>,
}

impl PostFilter {
    /// Create a new PostFilter for the entity whose identifier parameter is
    /// `id_key`, rejecting with the given not-found response.
    pub fn new(id_key: String, not_found_status: u16, not_found_body: Vec<u8>) -> (r: Self)
        ensures
            r.id_key@ == id_key@,
            r.not_found_status == not_found_status,
            r.not_found_body@ == not_found_body@,
    {
        Self { id_key, not_found_status, not_found_body }
    }

    /// Gate a request before dispatch: a POST whose route parameters already
    /// contain the identifier key is rejected with the not-found response;
    /// every other request passes through unchanged.
    pub fn filter_request(&self, req: OutboundRequest, params: RouteParams) -> (r:
        RequestFilterOutcome)
        ensures
            r is Fail <==> (req.method is Post && params.has_key(self.id_key@)),
            r matches RequestFilterOutcome::Fail(res) ==> res.status == self.not_found_status
                && res.body@ == self.not_found_body@ && res.headers@.len() == 0,
            r matches RequestFilterOutcome::Pass(q, p) ==> q == req && p == params,
    {
        if req.method == crate::message::HttpMethod::Post && params.contains_key(
            self.id_key.as_str(),
        ) {
            RequestFilterOutcome::Fail(
                InboundResponse {
                    status: self.not_found_status,
                    headers: Vec::new(),
                    body: clone_bytes(&self.not_found_body),
                },
            )
        } else {
            RequestFilterOutcome::Pass(req, params)
        }
    }

    /// Response-phase check: always passes the response through unchanged.
    pub fn filter_response(&self, res: InboundResponse) -> (r: ResponseFilterOutcome)
        ensures
            r matches ResponseFilterOutcome::Pass(out) && out == res,
    {
        ResponseFilterOutcome::Pass(res)
    }
}

/// A filter for PUT requests that only allows a request through if the
/// route parameters contain the ID param.
pub struct PutFilter {
    /// The name of the entity's identifier route parameter.
    pub id_key: String,
    /// The status of the prepared not-found response.
    pub not_found_status: u16,
    /// The body of the prepared not-found response.
    pub not_found_body: Vec<u8>,
}

impl PutFilter {
    /// Create a new PutFilter for the entity whose identifier parameter is
    /// `id_key`, rejecting with the given not-found response.
    pub fn new(id_key: String, not_found_status: u16, not_found_body: Vec<u8>) -> (r: Self)
        ensures
            r.id_key@ == id_key@,
            r.not_found_status == not_found_status,
            r.not_found_body@ == not_found_body@,
    {
        Self { id_key, not_found_status, not_found_body }
    }

    /// Gate a request before dispatch: a PUT whose route parameters do not
    /// contain the identifier key is rejected with the not-found response;
    /// every other request passes through unchanged.
    pub fn filter_request(&self, req: OutboundRequest, params: RouteParams) -> (r:
        RequestFilterOutcome)
        ensures
            r is Fail <==> (req.method is Put && !params.has_key(self.id_key@)),
            r matches RequestFilterOutcome::Fail(res) ==> res.status == self.not_found_status
                && res.body@ == self.not_found_body@ && res.headers@.len() == 0,
            r matches RequestFilterOutcome::Pass(q, p) ==> q == req && p == params,
    {
        if req.method == crate::message::HttpMethod::Put && !params.contains_key(
            self.id_key.as_str(),
        ) {
            RequestFilterOutcome::Fail(
                InboundResponse {
                    status: self.not_found_status,
                    headers: Vec::new(),
                    body: clone_bytes(&self.not_found_body),
                },
            )
        } else {
            RequestFilterOutcome::Pass(req, params)
        }
    }

    /// Response-phase check: always passes the response through unchanged.
    pub fn filter_response(&self, res: InboundResponse) -> (r: ResponseFilterOutcome)
        ensures
            r matches ResponseFilterOutcome::Pass(out) && out == res,
    {
        ResponseFilterOutcome::Pass(res)
    }
}

/// One of the default route filters.
pub enum RouteFilter {
    /// The PUT filter.
    Put(PutFilter),
    /// The POST filter.
    Post(PostFilter),
}

/// Default filters for most controllers: the PUT filter and the POST filter
/// for the entity whose identifier parameter is `id_key`, both rejecting
/// with the given not-found response.
pub fn default_filters(id_key: String, not_found_status: u16, not_found_body: Vec<u8>) -> (r: Vec<
    RouteFilter,
>)
    ensures
        r@.len() == 2,
        r@[0] matches RouteFilter::Put(f) && f.id_key@ == id_key@ && f.not_found_status
            == not_found_status && f.not_found_body@ == not_found_body@,
        r@[1] matches RouteFilter::Post(f) && f.id_key@ == id_key@ && f.not_found_status
            == not_found_status && f.not_found_body@ == not_found_body@,
{
    let put = PutFilter::new(id_key.clone(), not_found_status, clone_bytes(&not_found_body));
    let post = PostFilter::new(id_key, not_found_status, not_found_body);
    let mut filters: Vec<RouteFilter> = Vec::new();
    filters.push(RouteFilter::Put(put));
    filters.push(RouteFilter::Post(post));
    filters
}

/// Law: the PUT filter rejects exactly the PUT requests whose route
/// parameters lack the identifier key, and passes everything else through
/// unchanged — in particular, any request with another method.
pub proof fn lemma_put_filter_law(
    f: PutFilter,
    req: OutboundRequest,
    params: RouteParams,
    r: RequestFilterOutcome,
)
    requires
        call_ensures(PutFilter::filter_request, (&f, req, params), r),
    ensures
        req.method is Put && !params.has_key(f.id_key@) ==> (r matches RequestFilterOutcome::Fail(
            res,
        ) && res.status == f.not_found_status && res.body@ == f.not_found_body@),
        req.method is Put && params.has_key(f.id_key@) ==> (r matches RequestFilterOutcome::Pass(
            q,
            p,
        ) && q == req && p == params),
        !(req.method is Put) ==> (r matches RequestFilterOutcome::Pass(q, p) && q == req && p
            == params),
{
}

/// Law: the POST filter is the logical mirror of the PUT filter — it
/// rejects exactly the POST requests whose route parameters contain the
/// identifier key, and passes everything else through unchanged.
pub proof fn lemma_post_filter_law(
    f: PostFilter,
    req: OutboundRequest,
    params: RouteParams,
    r: RequestFilterOutcome,
)
    requires
        call_ensures(PostFilter::filter_request, (&f, req, params), r),
    ensures
        req.method is Post && params.has_key(f.id_key@) ==> (r matches RequestFilterOutcome::Fail(
            res,
        ) && res.status == f.not_found_status && res.body@ == f.not_found_body@),
        req.method is Post && !params.has_key(f.id_key@) ==> (r matches RequestFilterOutcome::Pass(
            q,
            p,
        ) && q == req && p == params),
        !(req.method is Post) ==> (r matches RequestFilterOutcome::Pass(q, p) && q == req && p
            == params),
{
}

} // verus!
