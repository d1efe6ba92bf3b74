//! The validated-request pipeline's judgement of a response.
//!
//! Every endpoint funnels its answer through the same two checks: the HTTP
//! status must be 2xx, and the decoded JSON body must pass the endpoint's
//! unwrap strategy, which detects the "empty" shapes the portal uses
//! interchangeably with real errors.

use vstd::prelude::*;
use crate::errors::GrowattError;
use crate::json::{json_get, spec_is_empty_array, spec_is_empty_object, JsonValue};

verus! {

/// How to tell a real payload from the portal's "empty" sentinel, and where
/// in the response the payload sits.
#[derive(Debug, PartialEq)]
pub enum UnwrapStrategy {
    /// The whole body must be a non-empty array.
    TopArray,
    /// The body must carry an `obj` field that is neither null nor an empty
    /// object.
    ObjField,
    /// The body must carry an `obj` field with the named sub-field, itself
    /// neither null nor an empty array.
    ObjNested(String),
    /// The body itself must be neither null nor an empty object.
    Bare,
}

/// The three ways a response can come out of the unwrap check.  `Accepted`
/// carries the payload the strategy points at.
pub enum UnwrapOutcome {
    Accepted(JsonValue),
    /// The payload slot exists but holds the "empty" sentinel.
    Empty,
    /// The response does not even have the expected shape.
    BadShape,
}

/// What each strategy makes of a response body.
pub open spec fn spec_unwrap(v: JsonValue, strategy: UnwrapStrategy) -> UnwrapOutcome {
    match strategy {
        UnwrapStrategy::TopArray => match v {
            JsonValue::Array(items) => if items@.len() == 0 {
                UnwrapOutcome::Empty
            } else {
                UnwrapOutcome::Accepted(v)
            },
            _ => UnwrapOutcome::Empty,
        },
        UnwrapStrategy::ObjField => match json_get(v, "obj"@) {
            Some(inner) => if inner is Null || spec_is_empty_object(inner) {
                UnwrapOutcome::Empty
            } else {
                UnwrapOutcome::Accepted(inner)
            },
            None => UnwrapOutcome::BadShape,
        },
        UnwrapStrategy::ObjNested(name) => match json_get(v, "obj"@) {
            Some(outer) => match json_get(outer, name@) {
                Some(inner) => if inner is Null || spec_is_empty_array(inner) {
                    UnwrapOutcome::Empty
                } else {
                    UnwrapOutcome::Accepted(inner)
                },
                None => UnwrapOutcome::BadShape,
            },
            None => UnwrapOutcome::BadShape,
        },
        UnwrapStrategy::Bare => if v is Null || spec_is_empty_object(v) {
            UnwrapOutcome::Empty
        } else {
            UnwrapOutcome::Accepted(v)
        },
    }
}

/// The message reported when a response carries the "empty" sentinel.
pub open spec fn spec_empty_msg() -> Seq<char> {
    "Empty response. Please ensure you are logged in."@
}

/// The message reported when a response is missing the expected structure.
pub open spec fn spec_bad_shape_msg() -> Seq<char> {
    "Invalid response structure"@
}

/// Applies the endpoint's unwrap strategy to a decoded body: hands back the
/// payload the strategy points at, or the `InvalidResponse` error that the
/// empty sentinel or a missing structure earns.
pub fn unwrap_response<'a>(v: &'a JsonValue, strategy: &UnwrapStrategy) -> (r: Result<
    &'a JsonValue,
    GrowattError,
>)
    ensures
        (match spec_unwrap(*v, *strategy) {
            UnwrapOutcome::Accepted(payload) => r matches Ok(j) && *j == payload,
            UnwrapOutcome::Empty => r matches Err(e) && e matches GrowattError::InvalidResponse(m)
                && m@ == spec_empty_msg(),
            UnwrapOutcome::BadShape => r matches Err(e) && e matches GrowattError::InvalidResponse(
                m,
            ) && m@ == spec_bad_shape_msg(),
        }),
{
    match strategy {
        UnwrapStrategy::TopArray => {
            match v {
                JsonValue::Array(items) => if items.len() == 0 {
                    Err(empty_error())
                } else {
                    Ok(v)
                },
                _ => Err(empty_error()),
            }
        },
        UnwrapStrategy::ObjField => {
            match v.get_field(&obj_key()) {
                Some(inner) => if inner.is_null() || inner.is_empty_object() {
                    Err(empty_error())
                } else {
                    Ok(inner)
                },
                None => Err(bad_shape_error()),
            }
        },
        UnwrapStrategy::ObjNested(name) => {
            match v.get_field(&obj_key()) {
                Some(outer) => match outer.get_field(name) {
                    Some(inner) => if inner.is_null() || inner.is_empty_array() {
                        Err(empty_error())
                    } else {
                        Ok(inner)
                    },
                    None => Err(bad_shape_error()),
                },
                None => Err(bad_shape_error()),
            }
        },
        UnwrapStrategy::Bare => {
            if v.is_null() || v.is_empty_object() {
                Err(empty_error())
            } else {
                Ok(v)
            }
        },
    }
}

/// The name of the wrapper field most endpoints put their payload under.
fn obj_key() -> (r: String)
    ensures
        r@ == "obj"@,
{
    "obj".to_owned()
}

/// The error for a response that holds the "empty" sentinel.
pub fn empty_error() -> (r: GrowattError)
    ensures
        r matches GrowattError::InvalidResponse(m) && m@ == spec_empty_msg(),
{
    GrowattError::InvalidResponse("Empty response. Please ensure you are logged in.".to_owned())
}

/// The error for a response without the expected structure.
pub fn bad_shape_error() -> (r: GrowattError)
    ensures
        r matches GrowattError::InvalidResponse(m) && m@ == spec_bad_shape_msg(),
{
    GrowattError::InvalidResponse("Invalid response structure".to_owned())
}

/// Step three of the pipeline: any non-2xx HTTP status is a failed request.
pub fn check_status(status: u16) -> (r: Result<(), GrowattError>)
    ensures
        r is Ok <==> 200 <= status < 300,
        r matches Err(e) ==> e matches GrowattError::RequestError(m) && m@
            == "HTTP status outside the success range"@,
{
    if 200 <= status && status < 300 {
        Ok(())
    } else {
        Err(GrowattError::RequestError("HTTP status outside the success range".to_owned()))
    }
}

} // verus!
