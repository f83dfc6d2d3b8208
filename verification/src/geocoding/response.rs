//! Decoding and classifying a Geocoding API response: the transport
//! collaborator hands back an HTTP status and a body; the body's
//! service-level status decides between a typed success and a typed
//! failure.

use crate::geocoding::error::Error;
use crate::geocoding::status::Status;
use crate::json::{parse_error, parse_error_of, string_member, string_member_of};
use crate::text::{dec_digits, push_digits};
use vstd::prelude::*;
use vstd::string::StringExecFns;

verus! {

/// The fields of a service response that drive control flow: the reported
/// status and, when present, the service's own error message.
#[derive(Clone, Debug, Eq, PartialEq)]
pub struct ServiceOutcome {
    pub status: Status,
    pub error_message: Option<String>,
}

/// Classifies an HTTP outcome before the body is read: any outcome
/// outside the 2xx range is a typed transport failure naming the status
/// code.
pub fn classify_http_status(code: u16) -> (r: Result<(), Error>)
    ensures
        200 <= code < 300 ==> r is Ok,
        !(200 <= code < 300) ==> (r matches Err(e) && e matches Error::HttpUnsuccessful(s) && s@
            == dec_digits(code as nat)),
{
    if 200 <= code && code < 300 {
        Ok(())
    } else {
        let mut rendered = String::new();
        push_digits(code as u128, &mut rendered);
        Err(Error::HttpUnsuccessful(rendered))
    }
}

/// Decodes the status and optional error message out of a response body.
/// The contract fixes the result for every body over the named JSON
/// readings: an unparsable body is a decode failure carrying the
/// decoder's message unchanged; a body without a string `status` member
/// is a decode failure; an unrecognized status code is a codec failure
/// naming that code verbatim; otherwise the outcome holds the decoded
/// status, and the service's message exactly when the body holds
/// `error_message` as a string (anything else reads as no message).
pub fn decode_outcome(body: &str) -> (r: Result<ServiceOutcome, Error>)
    ensures
        match parse_error_of(body@) {
            Some(m) => r matches Err(e) && e matches Error::SerdeJson(t) && t@ == m,
            None => match string_member_of(body@, "status"@) {
                None => r matches Err(e) && e matches Error::SerdeJson(t) && t@
                    == "missing or invalid field `status`"@,
                Some(s) => match Status::from_wire_spec(s) {
                    None => r matches Err(e) && e matches Error::InvalidStatusCode(c) && c@ == s,
                    Some(v) => r matches Ok(o) && o.status == v && (match o.error_message {
                        Some(m) => string_member_of(body@, "error_message"@) == Some(m@),
                        None => string_member_of(body@, "error_message"@) is None,
                    }),
                },
            },
        },
{
    match parse_error(body) {
        Some(m) => {
            return Err(Error::SerdeJson(m));
        },
        None => {},
    }
    let status_code = match string_member(body, "status") {
        Some(s) => s,
        None => {
            return Err(Error::SerdeJson(String::from_str("missing or invalid field `status`")));
        },
    };
    let status = Status::from_wire(status_code.as_str())?;
    let error_message = string_member(body, "error_message");
    Ok(ServiceOutcome { status, error_message })
}

/// Turns a decoded service outcome into the caller's result: a successful
/// status passes through, and any other status becomes a service error
/// carrying the status and the service's message when one was sent, so
/// callers can branch on retryability.
pub fn classify_outcome(outcome: ServiceOutcome) -> (r: Result<Status, Error>)
    ensures
        outcome.status == Status::Okay ==> r == Ok::<Status, Error>(Status::Okay),
        outcome.status != Status::Okay ==> r == Err::<Status, Error>(
            Error::GoogleMapsService(outcome.status, outcome.error_message),
        ),
{
    if outcome.status == Status::Okay {
        Ok(Status::Okay)
    } else {
        Err(Error::GoogleMapsService(outcome.status, outcome.error_message))
    }
}

} // verus!
