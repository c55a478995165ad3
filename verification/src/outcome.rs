//! The typed outcome of one request execution.

use vstd::prelude::*;

verus! {

/// The error side of one request execution. Exactly one kind holds per
/// call, and the kinds are mutually exclusive by construction:
///
/// * `TransportError`: the request could not be sent or no response was
///   obtained (DNS, connect, TLS, I/O).
/// * `BodyReadError`: a response arrived but its body stream could not be
///   fully read.
/// * `DecodeError`: the body text could not be parsed into the type
///   expected for its status class.
/// * `ErrorPayload`: the body parsed successfully as the error-payload type
///   and the status was outside the success class.
#[derive(Debug, Clone, PartialEq, Eq)]
pub enum RequestError<E> {
    /// The request could not be sent, or the response never arrived.
    TransportError,
    /// The response body stream could not be fully read.
    BodyReadError,
    /// The body did not parse as the type its status class calls for.
    DecodeError,
    /// The status was outside the success class and the body parsed as `E`.
    ErrorPayload(E),
}

/// How one network exchange failed before any body was available: either
/// the send itself failed, or the body stream could not be fully read.
#[derive(Debug, Clone, Copy, PartialEq, Eq)]
pub enum TransportFailure {
    /// The request could not be sent or no response was obtained.
    SendFailed,
    /// The response arrived but reading its body failed.
    BodyReadFailed,
}

/// A raw response as the transport collaborator hands it over: the status
/// code and the full body bytes.
#[derive(Debug, Clone, PartialEq, Eq)]
pub struct RawResponse {
    /// The HTTP status code of the response.
    pub status: u16,
    /// The full response body.
    pub body: Vec<u8>,
}

/// Whether a status code lies in the success class. This binary split is
/// the only status-based branch of the pipeline: no finer sub-classification
/// by status value is made.
pub open spec fn spec_is_success(status: u16) -> bool {
    200 <= status < 300
}

/// Classifies a status code into the success class (`2xx`) or not.
pub fn is_success_status(status: u16) -> (r: bool)
    ensures
        r == spec_is_success(status),
{
    200 <= status && status < 300
}

} // verus!
