//! Request descriptors and their layered default assembly.
//!
//! A request descriptor is the fully assembled, immutable representation of
//! one outbound request. Assembly is layered: base construction (method and
//! resolved URL), then a caller-overridable header stage, then a
//! caller-overridable parameter stage, and finally the query parameters
//! (GET) or the raw body (POST) are attached. Each stage receives the
//! descriptor from the previous one and returns a possibly-modified
//! descriptor; no stage retains state.

use vstd::prelude::*;

use crate::endpoint::create_endpoint;
use crate::endpoint::spec_resolved;
use crate::params::ParamSet;

verus! {

/// The request method: the pipeline assembles GET and POST requests.
#[derive(Debug, Clone, Copy, PartialEq, Eq, Structural)]
pub enum Method {
    /// A GET request; it carries its parameter set as a query string.
    Get,
    /// A POST request; it carries a raw string body.
    Post,
}

/// What a request carries: a query parameter set (GET) or a raw body string
/// that the caller has already encoded, conventionally as JSON (POST).
#[derive(Debug, PartialEq, Eq)]
pub enum Payload {
    /// Query parameters, attached to the URL by the transport.
    Query(ParamSet),
    /// A raw request body, passed through without further encoding.
    RawBody(String),
}

/// The mathematical value of a [`Payload`].
pub enum PayloadModel {
    /// A query parameter mapping.
    Query(Map<Seq<char>, Option<Seq<char>>>),
    /// A raw body.
    RawBody(Seq<char>),
}

impl View for Payload {
    type V = PayloadModel;

    open spec fn view(&self) -> PayloadModel {
        match self {
            Payload::Query(p) => PayloadModel::Query(p@),
            Payload::RawBody(s) => PayloadModel::RawBody(s@),
        }
    }
}

/// The fully assembled, immutable representation of one outbound request:
/// method, resolved URL, headers, and the payload.
#[derive(Debug, PartialEq, Eq)]
pub struct RequestDescriptor {
    /// The request method.
    pub method: Method,
    /// The resolved URL, base address and endpoint joined by a slash.
    pub url: String,
    /// Header name/value pairs, in the order they were added.
    pub headers: Vec<(String, String)>,
    /// The query parameters or the raw body.
    pub payload: Payload,
}

/// The mathematical value of a [`RequestDescriptor`].
#[verifier::ext_equal]
pub struct DescriptorModel {
    /// The request method.
    pub method: Method,
    /// The resolved URL.
    pub url: Seq<char>,
    /// Header name/value pairs, in order.
    pub headers: Seq<(Seq<char>, Seq<char>)>,
    /// The query parameters or the raw body.
    pub payload: PayloadModel,
}

impl View for RequestDescriptor {
    type V = DescriptorModel;

    open spec fn view(&self) -> DescriptorModel {
        DescriptorModel {
            method: self.method,
            url: self.url@,
            headers: self.headers.deep_view(),
            payload: self.payload@,
        }
    }
}

/// The descriptor that base construction yields: the method, the resolved
/// URL, no headers yet, and a placeholder payload that the final assembly
/// step replaces.
pub open spec fn spec_base_descriptor(
    method: Method,
    base: Seq<char>,
    endpoint: Seq<char>,
    payload: PayloadModel,
) -> DescriptorModel {
    DescriptorModel { method, url: spec_resolved(base, endpoint), headers: Seq::empty(), payload }
}

/// The descriptor with one more header at the end.
pub open spec fn spec_with_header(
    d: DescriptorModel,
    key: Seq<char>,
    value: Seq<char>,
) -> DescriptorModel {
    DescriptorModel { headers: d.headers.push((key, value)), ..d }
}

/// The descriptor with its payload replaced.
pub open spec fn spec_with_payload(d: DescriptorModel, payload: PayloadModel) -> DescriptorModel {
    DescriptorModel { payload, ..d }
}

/// Appends a header to the descriptor.
pub fn add_header(request: RequestDescriptor, key: &str, value: &str) -> (r: RequestDescriptor)
    ensures
        r@ == spec_with_header(request@, key@, value@),
{
    let mut request = request;
    let ghost orig = request@;
    request.headers.push((String::from_str(key), String::from_str(value)));
    proof {
        assert(request@.headers =~= spec_with_header(orig, key@, value@).headers);
        assert(request@ =~= spec_with_header(orig, key@, value@));
    }
    request
}

/// Conditionally appends a header: the header is added exactly when the
/// supplied closure, evaluated once at call time, returns true; otherwise
/// the descriptor passes through unchanged. This lets optional headers
/// (such as authentication) be attached without branching in caller code.
pub fn add_header_if<F: FnOnce() -> bool>(
    request: RequestDescriptor,
    key: &str,
    value: &str,
    closure: F,
) -> (r: RequestDescriptor)
    requires
        call_requires(closure, ()),
    ensures
        exists|b: bool|
            call_ensures(closure, (), b) && r@ == if b {
                spec_with_header(request@, key@, value@)
            } else {
                request@
            },
{
    match closure() {
        true => add_header(request, key, value),
        false => request,
    }
}

/// Layered request defaults: the base address together with the two
/// overridable assembly stages. A concrete client overrides a stage by
/// storing its own function there; the identity function leaves the
/// default behaviour, which modifies nothing.
pub struct RequestDefaults<H, P> {
    /// The base address that every endpoint is resolved against.
    pub base_url: String,
    /// The header stage: receives the base descriptor and may inject
    /// headers such as authentication, content type or API keys.
    pub header_stage: H,
    /// The parameter stage: receives the header stage's descriptor and may
    /// modify it further before the payload is attached.
    pub parameter_stage: P,
}

/// The identity assembly stage: returns the descriptor unchanged. It is
/// the default for both overridable stages.
pub fn identity_stage(request: RequestDescriptor) -> (r: RequestDescriptor)
    ensures
        r == request,
{
    request
}

impl<
    H: Fn(RequestDescriptor) -> RequestDescriptor,
    P: Fn(RequestDescriptor) -> RequestDescriptor,
> RequestDefaults<H, P> {
    /// Applies the header stage to the descriptor.
    pub fn default_headers(&self, request: RequestDescriptor) -> (r: RequestDescriptor)
        requires
            call_requires(self.header_stage, (request,)),
        ensures
            call_ensures(self.header_stage, (request,), r),
    {
        (self.header_stage)(request)
    }

    /// Applies the parameter stage to the descriptor.
    pub fn default_parameters(&self, request: RequestDescriptor) -> (r: RequestDescriptor)
        requires
            call_requires(self.parameter_stage, (request,)),
        ensures
            call_ensures(self.parameter_stage, (request,), r),
    {
        (self.parameter_stage)(request)
    }

    /// Assembles a GET request descriptor for the endpoint: base
    /// construction with the resolved URL, then the header stage, then the
    /// parameter stage, and finally the parameter set attached as the query.
    pub fn default_get_requestor(&self, endpoint: &str, parameters: ParamSet) -> (r:
        RequestDescriptor)
        requires
            forall|d0: RequestDescriptor|
                d0@ == spec_base_descriptor(
                    Method::Get,
                    self.base_url@,
                    endpoint@,
                    PayloadModel::Query(Map::empty()),
                ) ==> call_requires(self.header_stage, (d0,)),
            forall|d0: RequestDescriptor, d1: RequestDescriptor|
                d0@ == spec_base_descriptor(
                    Method::Get,
                    self.base_url@,
                    endpoint@,
                    PayloadModel::Query(Map::empty()),
                ) && #[trigger] call_ensures(self.header_stage, (d0,), d1) ==> call_requires(
                    self.parameter_stage,
                    (d1,),
                ),
        ensures
            exists|d0: RequestDescriptor, d1: RequestDescriptor, d2: RequestDescriptor|
                d0@ == spec_base_descriptor(
                    Method::Get,
                    self.base_url@,
                    endpoint@,
                    PayloadModel::Query(Map::empty()),
                ) && #[trigger] call_ensures(self.header_stage, (d0,), d1) && #[trigger] call_ensures(
                    self.parameter_stage,
                    (d1,),
                    d2,
                ) && r@ == spec_with_payload(d2@, PayloadModel::Query(parameters@)),
    {
        let d0 = RequestDescriptor {
            method: Method::Get,
            url: create_endpoint(self.base_url.as_str(), endpoint),
            headers: Vec::new(),
            payload: Payload::Query(ParamSet::new()),
        };
        proof {
            assert(d0@ =~= spec_base_descriptor(
                Method::Get,
                self.base_url@,
                endpoint@,
                PayloadModel::Query(Map::empty()),
            ));
        }
        let d2 = self.default_parameters(self.default_headers(d0));
        let mut r = d2;
        r.payload = Payload::Query(parameters);
        proof {
            assert(r@ =~= spec_with_payload(d2@, PayloadModel::Query(parameters@)));
        }
        r
    }

    /// Assembles a POST request descriptor for the endpoint: base
    /// construction with the resolved URL, then the header stage, then the
    /// parameter stage, and finally the raw string attached as the body.
    /// The body is passed through as the caller encoded it.
    pub fn default_post_requestor(&self, endpoint: &str, json: String) -> (r: RequestDescriptor)
        requires
            forall|d0: RequestDescriptor|
                d0@ == spec_base_descriptor(
                    Method::Post,
                    self.base_url@,
                    endpoint@,
                    PayloadModel::RawBody(Seq::empty()),
                ) ==> call_requires(self.header_stage, (d0,)),
            forall|d0: RequestDescriptor, d1: RequestDescriptor|
                d0@ == spec_base_descriptor(
                    Method::Post,
                    self.base_url@,
                    endpoint@,
                    PayloadModel::RawBody(Seq::empty()),
                ) && #[trigger] call_ensures(self.header_stage, (d0,), d1) ==> call_requires(
                    self.parameter_stage,
                    (d1,),
                ),
        ensures
            exists|d0: RequestDescriptor, d1: RequestDescriptor, d2: RequestDescriptor|
                d0@ == spec_base_descriptor(
                    Method::Post,
                    self.base_url@,
                    endpoint@,
                    PayloadModel::RawBody(Seq::empty()),
                ) && #[trigger] call_ensures(self.header_stage, (d0,), d1) && #[trigger] call_ensures(
                    self.parameter_stage,
                    (d1,),
                    d2,
                ) && r@ == spec_with_payload(d2@, PayloadModel::RawBody(json@)),
    {
        let d0 = RequestDescriptor {
            method: Method::Post,
            url: create_endpoint(self.base_url.as_str(), endpoint),
            headers: Vec::new(),
            payload: Payload::RawBody(String::new()),
        };
        proof {
            assert(d0@ =~= spec_base_descriptor(
                Method::Post,
                self.base_url@,
                endpoint@,
                PayloadModel::RawBody(Seq::empty()),
            ));
        }
        let d2 = self.default_parameters(self.default_headers(d0));
        let mut r = d2;
        r.payload = Payload::RawBody(json);
        proof {
            assert(r@ =~= spec_with_payload(d2@, PayloadModel::RawBody(json@)));
        }
        r
    }
}

} // verus!
