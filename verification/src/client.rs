//! The tracking client's computation: classifying one HTTP outcome into a
//! typed tracking result or a typed fetch error, and rendering fetch errors
//! as human-readable messages.
//!
//! The request itself (the network call) is performed outside this library;
//! this module receives the plain status code and body text.

use vstd::prelude::*;
use crate::json::{decode_tracking_body, decoded_body, parsed_json, spec_shape_error_message};
use crate::model::{FetchError, FetchErrorModel, TrackingResult};
use crate::text::{dec_digits, u16_to_dec};

verus! {

/// Whether an HTTP status code counts as success.
pub open spec fn spec_is_success(status: u16) -> bool {
    200 <= status < 300
}

/// Tests an HTTP status code for success.
pub fn is_success_status(status: u16) -> (r: bool)
    ensures
        r == spec_is_success(status),
{
    200 <= status && status < 300
}

/// Classifies one completed HTTP exchange.
///
/// A non-success status yields `Http` with exactly the status code and body
/// the server sent. A success status yields the decoded checkpoint history
/// when the body is a well-formed success body, and `Decode` otherwise —
/// never a partial success.
pub fn classify_response(status: u16, body: String) -> (r: Result<TrackingResult, FetchError>)
    ensures
        !spec_is_success(status) ==> (r matches Err(e) && e@ == (FetchErrorModel::Http {
            status,
            body: body@,
        })),
        spec_is_success(status) ==> match decoded_body(body@) {
            Some(cps) => r matches Ok(tr) && tr@ == cps,
            None => r matches Err(e) && e@ is Decode && (parsed_json(body@) is Some ==> e@
                == (FetchErrorModel::Decode { message: spec_shape_error_message() })),
        },
{
    if !is_success_status(status) {
        return Err(FetchError::Http { status, body });
    }
    match decode_tracking_body(body.as_str()) {
        Ok(tr) => Ok(tr),
        Err(m) => Err(FetchError::Decode { message: m }),
    }
}

/// The human-readable message of a fetch error. The message of an `Http`
/// error always contains the decimal status code.
pub open spec fn spec_error_message(e: FetchErrorModel) -> Seq<char> {
    match e {
        FetchErrorModel::Http { status, body } => "Request failed: "@ + dec_digits(status as nat)
            + " - "@ + body,
        FetchErrorModel::Decode { message } => "Failed to decode response body: "@ + message,
        FetchErrorModel::Network { message } => "Network error: "@ + message,
        FetchErrorModel::Timeout => "Request timed out"@,
    }
}

/// Renders a fetch error as the message shown to the user.
pub fn error_message(e: &FetchError) -> (r: String)
    ensures
        r@ == spec_error_message(e@),
{
    match e {
        FetchError::Http { status, body } => {
            let mut s: String = "Request failed: ".to_owned();
            let d = u16_to_dec(*status);
            s.append(d.as_str());
            s.append(" - ");
            s.append(body.as_str());
            s
        },
        FetchError::Decode { message } => {
            let mut s: String = "Failed to decode response body: ".to_owned();
            s.append(message.as_str());
            s
        },
        FetchError::Network { message } => {
            let mut s: String = "Network error: ".to_owned();
            s.append(message.as_str());
            s
        },
        FetchError::Timeout => "Request timed out".to_owned(),
    }
}

} // verus!
