//! Request execution: classifying one network exchange into a typed result.

use vstd::prelude::*;

use crate::outcome::RawResponse;
use crate::outcome::RequestError;
use crate::outcome::TransportFailure;
use crate::outcome::is_success_status;
use crate::outcome::spec_is_success;

verus! {

/// Relies on `serde_json::from_slice`: parses the bytes as JSON text and
/// decodes a value of type `T` from it, or fails on malformed or
/// ill-shaped input. What decodes as a `T` is the codec collaborator's
/// business, so nothing is claimed of the result.
#[verifier::external_body]
fn parse_json<T: serde::de::DeserializeOwned>(body: &[u8]) -> (r: Option<T>) {
    serde_json::from_slice(body).ok()
}

/// Turns the decode attempt of a success-class body into the final result:
/// a decoded value is mapped and returned as the success, a failed decode
/// becomes `DecodeError`. No other kind can come out of a success-class
/// response.
pub fn decode_success<T, O, E, M: FnOnce(T) -> O>(parsed: Option<T>, map: M) -> (r: Result<
    O,
    RequestError<E>,
>)
    requires
        parsed matches Some(t) ==> call_requires(map, (t,)),
    ensures
        parsed matches Some(t) ==> (r matches Ok(o) && call_ensures(map, (t,), o)),
        parsed is None ==> r == Err::<O, RequestError<E>>(RequestError::DecodeError),
{
    match parsed {
        Some(t) => Ok(map(t)),
        None => Err(RequestError::DecodeError),
    }
}

/// Turns the decode attempt of a non-success-class body into the final
/// result: a decoded error payload comes back as `ErrorPayload`, a failed
/// decode becomes `DecodeError`. A non-success response never yields a
/// success value.
pub fn decode_failure<O, E>(parsed: Option<E>) -> (r: Result<O, RequestError<E>>)
    ensures
        parsed matches Some(e) ==> r == Err::<O, RequestError<E>>(RequestError::ErrorPayload(e)),
        parsed is None ==> r == Err::<O, RequestError<E>>(RequestError::DecodeError),
{
    match parsed {
        Some(e) => Err(RequestError::ErrorPayload(e)),
        None => Err(RequestError::DecodeError),
    }
}

/// Classifies one finished network exchange and maps its success value.
///
/// A failed send becomes `TransportError` and a failed body read becomes
/// `BodyReadError`, in both cases with no decode attempted. Otherwise the
/// status decides which type the body is decoded as: in the success class
/// the body is decoded as `T` and mapped through `map`; outside it the body
/// is decoded as `E` and wrapped as `ErrorPayload`. Either decode fails as
/// `DecodeError`. The status is classified before any decoding, so a
/// success-class body shaped like `E` is never reinterpreted as an error
/// payload.
pub fn request_map<T, O, E, M: FnOnce(T) -> O>(
    exchange: Result<RawResponse, TransportFailure>,
    map: M,
) -> (r: Result<O, RequestError<E>>) where
    T: serde::de::DeserializeOwned,
    E: serde::de::DeserializeOwned,

    requires
        forall|t: T| call_requires(map, (t,)),
    ensures
        exchange == Err::<RawResponse, TransportFailure>(TransportFailure::SendFailed) ==> r
            == Err::<O, RequestError<E>>(RequestError::TransportError),
        exchange == Err::<RawResponse, TransportFailure>(TransportFailure::BodyReadFailed) ==> r
            == Err::<O, RequestError<E>>(RequestError::BodyReadError),
        exchange matches Ok(resp) && spec_is_success(resp.status) ==> match r {
            Ok(o) => exists|t: T| call_ensures(map, (t,), o),
            Err(e) => e == RequestError::<E>::DecodeError,
        },
        exchange matches Ok(resp) && !spec_is_success(resp.status) ==> (r matches Err(e) && (e
            matches RequestError::ErrorPayload(_) || e == RequestError::<E>::DecodeError)),
{
    match exchange {
        Err(TransportFailure::SendFailed) => Err(RequestError::TransportError),
        Err(TransportFailure::BodyReadFailed) => Err(RequestError::BodyReadError),
        Ok(response) => {
            if is_success_status(response.status) {
                let parsed: Option<T> = parse_json(response.body.as_slice());
                decode_success(parsed, map)
            } else {
                let parsed: Option<E> = parse_json(response.body.as_slice());
                decode_failure(parsed)
            }
        },
    }
}

} // verus!
