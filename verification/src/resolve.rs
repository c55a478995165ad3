//! Error resolution: degrading a typed result to an optional value while
//! notifying a caller-supplied handler of the error.

use vstd::prelude::*;

use crate::outcome::RawResponse;
use crate::outcome::RequestError;
use crate::outcome::TransportFailure;
use crate::outcome::spec_is_success;
use crate::execute::request_map;

verus! {

/// Resolves a typed result into an optional value. A success value is
/// returned as is and the handler is left uncalled. Any error is handed to
/// the handler exactly once — the handler's only purpose is this side
/// effect (logging, metrics, alerting) — and the call then returns nothing:
/// the error value is discarded after the handler has seen it, so a caller
/// that needs the error itself must inspect the result before resolving it.
pub fn resolve_error<O, E, H: FnOnce(RequestError<E>)>(
    response: Result<O, RequestError<E>>,
    error_handler: H,
) -> (r: Option<O>)
    requires
        response matches Err(e) ==> call_requires(error_handler, (e,)),
    ensures
        response matches Ok(v) ==> r == Some(v),
        response matches Err(e) ==> r is None && call_ensures(error_handler, (e,), ()),
{
    match response {
        Ok(value) => Some(value),
        Err(error) => {
            error_handler(error);
            None
        },
    }
}

/// Classifies one finished network exchange and resolves its errors in one
/// step: `request_map` followed by `resolve_error`. The mapped success
/// value comes back as `Some`; every other outcome is handed to the error
/// handler exactly once and degrades to `None`.
pub fn handle_exchange<T, O, E, M: FnOnce(T) -> O, H: FnOnce(RequestError<E>)>(
    exchange: Result<RawResponse, TransportFailure>,
    map: M,
    error_handler: H,
) -> (r: Option<O>) where T: serde::de::DeserializeOwned, E: serde::de::DeserializeOwned
    requires
        forall|t: T| call_requires(map, (t,)),
        forall|e: RequestError<E>| call_requires(error_handler, (e,)),
    ensures
        r matches Some(o) ==> exists|t: T| call_ensures(map, (t,), o),
        r matches Some(o) ==> exchange matches Ok(resp) && spec_is_success(resp.status),
        r is None ==> exists|e: RequestError<E>| call_ensures(error_handler, (e,), ()),
        exchange == Err::<RawResponse, TransportFailure>(TransportFailure::SendFailed) ==> r
            is None && call_ensures(error_handler, (RequestError::<E>::TransportError,), ()),
        exchange == Err::<RawResponse, TransportFailure>(TransportFailure::BodyReadFailed) ==> r
            is None && call_ensures(error_handler, (RequestError::<E>::BodyReadError,), ()),
        exchange matches Ok(resp) && !spec_is_success(resp.status) ==> r is None && exists|
            e: RequestError<E>,
        |
            call_ensures(error_handler, (e,), ()) && (e matches RequestError::ErrorPayload(_) || e
                == RequestError::<E>::DecodeError),
{
    let ghost ex = exchange;
    let response = request_map(exchange, map);
    let r = resolve_error(response, error_handler);
    proof {
        match ex {
            Ok(resp) => {},
            Err(TransportFailure::SendFailed) => {},
            Err(TransportFailure::BodyReadFailed) => {},
        }
        if r is Some {
            let o = r->Some_0;
            assert(response is Ok && response->Ok_0 == o);
            assert(exists|t: T| call_ensures(map, (t,), o));
        }
    }
    r
}

} // verus!
