//! Geocoding API error types and error messages: local precondition and
//! sequencing violations, transport failures, decode failures, and
//! upstream service failures.

use crate::geocoding::status::Status;
use vstd::prelude::*;
use vstd::string::StringExecFns;

verus! {

/// Errors that may be produced by the Google Maps Geocoding API client.
#[derive(Clone, Debug, Eq, PartialEq)]
pub enum Error {
    /// Forward geocoding requests (address to latlng) must specify an
    /// `address` or at least one `component`.
    AddressOrComponentsRequired,
    /// The Google Maps Geocoding API server generated an error, reported
    /// through its status code and, when present, its own error message.
    GoogleMapsService(Status, Option<String>),
    /// The HTTP request was unsuccessful; carries the last HTTP status.
    HttpUnsuccessful(String),
    /// A string was parsed that contained an invalid status code.
    InvalidStatusCode(String),
    /// The query string must be built before the request may be sent.
    QueryNotBuilt,
    /// The request must be validated before a query string may be built.
    RequestNotValidated,
    /// The response body could not be decoded as JSON; carries the JSON
    /// decoder's rendered message.
    SerdeJson(String),
}

impl Error {
    /// The canned explanation substituted when the service reports a
    /// failure status without an error message of its own.
    pub open spec fn service_text_spec(status: Status) -> Seq<char> {
        match status {
            Status::InvalidRequest => "Google Maps Geocoding API server: Invalid request. This may indicate that the query (address, components, or latlng) is missing, an invalid result type, or an invalid location type."@,
            Status::Okay => "Google Maps Geocoding server: Ok. The request was successful."@,
            Status::OverDailyLimit => "Google Maps Geocoding API server: Over daily limit. Usage cap has been exceeded, API key is invalid, billing has not been enabled, or method of payment is no longer valid."@,
            Status::OverQueryLimit => "Google Maps Geocoding API server: Over query limit. Requestor has exceeded quota."@,
            Status::RequestDenied => "Google Maps Geocoding API server: Request denied Service did not complete the request."@,
            Status::UnknownError => "Google Maps Geocoding API server: Unknown error."@,
            Status::ZeroResults => "Google Maps Geocoding API server: Zero results. This may occur if the geocoder was passed a non-existent address."@,
        }
    }

    /// The full-sentence explanation rendered for each variant. A service
    /// failure renders the service's own message when one was sent and the
    /// canned per-status explanation otherwise.
    pub open spec fn message_spec(self) -> Seq<char> {
        match self {
            Error::AddressOrComponentsRequired => "Google Maps Geocoding API client: Forward geocoding requests must specify an `address` or at least one `component`. Ensure that the with_address() and/or with_component methods are being called before run()."@,
            Error::GoogleMapsService(status, error_message) => match error_message {
                Some(m) => "Google Maps Geocoding API server: "@ + m@,
                None => Error::service_text_spec(status),
            },
            Error::HttpUnsuccessful(status) => "Google Maps Geocoding API client: Could not successfully query the Google Cloud Platform service. The service last responded with a `"@
                + status@ + "` status."@,
            Error::InvalidStatusCode(code) => "Google Maps Geocoding API client: `"@ + code@
                + "` is not a valid status code. Valid codes are `INVALID_REQUEST`, `OK`, `OVER_DAILY_LIMIT`, `OVER_QUERY_LIMIT`, `REQUEST_DENIED`, `UNKNOWN_ERROR`, and `ZERO_RESULTS`."@,
            Error::QueryNotBuilt => "Google Maps Geocoding API client: The query string must be built before the request may be sent to the Google Cloud Maps Platform. Ensure the build() method is called before run()."@,
            Error::RequestNotValidated => "Google Maps Geocoding API client: The request must be validated before a query string may be built. Ensure the validate() method is called before build()."@,
            Error::SerdeJson(m) => "Google Maps Geocoding API client in the Serde JSON library: "@
                + m@,
        }
    }

    /// Renders the error as a full sentence naming the likely cause and
    /// the corrective builder call, suitable for direct display.
    pub fn message(&self) -> (r: String)
        ensures
            r@ == self.message_spec(),
    {
        let mut out = String::new();
        match self {
            Error::AddressOrComponentsRequired => {
                out.append(
                    "Google Maps Geocoding API client: Forward geocoding requests must specify an `address` or at least one `component`. Ensure that the with_address() and/or with_component methods are being called before run().",
                );
            },
            Error::GoogleMapsService(status, error_message) => {
                match error_message {
                    Some(m) => {
                        out.append("Google Maps Geocoding API server: ");
                        out.append(m.as_str());
                    },
                    None => {
                        match status {
                            Status::InvalidRequest => {
                                out.append(
                                    "Google Maps Geocoding API server: Invalid request. This may indicate that the query (address, components, or latlng) is missing, an invalid result type, or an invalid location type.",
                                );
                            },
                            Status::Okay => {
                                out.append(
                                    "Google Maps Geocoding server: Ok. The request was successful.",
                                );
                            },
                            Status::OverDailyLimit => {
                                out.append(
                                    "Google Maps Geocoding API server: Over daily limit. Usage cap has been exceeded, API key is invalid, billing has not been enabled, or method of payment is no longer valid.",
                                );
                            },
                            Status::OverQueryLimit => {
                                out.append(
                                    "Google Maps Geocoding API server: Over query limit. Requestor has exceeded quota.",
                                );
                            },
                            Status::RequestDenied => {
                                out.append(
                                    "Google Maps Geocoding API server: Request denied Service did not complete the request.",
                                );
                            },
                            Status::UnknownError => {
                                out.append("Google Maps Geocoding API server: Unknown error.");
                            },
                            Status::ZeroResults => {
                                out.append(
                                    "Google Maps Geocoding API server: Zero results. This may occur if the geocoder was passed a non-existent address.",
                                );
                            },
                        }
                    },
                }
            },
            Error::HttpUnsuccessful(status) => {
                out.append(
                    "Google Maps Geocoding API client: Could not successfully query the Google Cloud Platform service. The service last responded with a `",
                );
                out.append(status.as_str());
                out.append("` status.");
            },
            Error::InvalidStatusCode(code) => {
                out.append("Google Maps Geocoding API client: `");
                out.append(code.as_str());
                out.append(
                    "` is not a valid status code. Valid codes are `INVALID_REQUEST`, `OK`, `OVER_DAILY_LIMIT`, `OVER_QUERY_LIMIT`, `REQUEST_DENIED`, `UNKNOWN_ERROR`, and `ZERO_RESULTS`.",
                );
            },
            Error::QueryNotBuilt => {
                out.append(
                    "Google Maps Geocoding API client: The query string must be built before the request may be sent to the Google Cloud Maps Platform. Ensure the build() method is called before run().",
                );
            },
            Error::RequestNotValidated => {
                out.append(
                    "Google Maps Geocoding API client: The request must be validated before a query string may be built. Ensure the validate() method is called before build().",
                );
            },
            Error::SerdeJson(m) => {
                out.append("Google Maps Geocoding API client in the Serde JSON library: ");
                out.append(m.as_str());
            },
        }
        proof {
            assert(out@ =~= self.message_spec());
        }
        out
    }
}

} // verus!
