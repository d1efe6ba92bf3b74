//! The error taxonomy shared by every operation of the client.

use vstd::prelude::*;

verus! {

/// Everything that can go wrong while talking to the portal.
///
/// - `RequestError`: the transport failed or the server answered a non-2xx
///   HTTP status.
/// - `JsonError`: the body was not valid JSON, or a well-formed body did not
///   fit the requested typed shape.
/// - `AuthError`: the portal rejected the credentials; the payload is the
///   human-readable message it sent along.
/// - `InvalidResponse`: the body was well-formed JSON but missing the expected
///   fields, or it was the "empty" sentinel the portal uses in place of a
///   real error.
/// - `NotLoggedIn`: an authenticated operation ran with no usable session and
///   no stored credentials to renew one silently.
#[derive(Debug, PartialEq, Eq)]
pub enum GrowattError {
    RequestError(String),
    JsonError(String),
    AuthError(String),
    InvalidResponse(String),
    NotLoggedIn,
}

} // verus!
