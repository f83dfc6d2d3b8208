//! Decoding and classifying service responses, and the rendered service
//! error texts.

use google_maps::geocoding::error::Error;
use google_maps::geocoding::response::{classify_http_status, classify_outcome, decode_outcome};
use google_maps::geocoding::status::Status;

#[test]
fn over_query_limit_without_message_renders_the_canned_explanation() {
    let outcome = decode_outcome("{\"status\":\"OVER_QUERY_LIMIT\"}").unwrap();
    assert_eq!(outcome.status, Status::OverQueryLimit);
    assert_eq!(outcome.error_message, None);
    let e = classify_outcome(outcome).unwrap_err();
    assert_eq!(
        e,
        Error::GoogleMapsService(Status::OverQueryLimit, None)
    );
    assert_eq!(
        e.message(),
        "Google Maps Geocoding API server: Over query limit. Requestor has exceeded quota."
    );
}

#[test]
fn explicit_error_message_is_rendered_verbatim() {
    let body = "{\"status\":\"REQUEST_DENIED\",\"error_message\":\"The provided API key is invalid.\"}";
    let outcome = decode_outcome(body).unwrap();
    let e = classify_outcome(outcome).unwrap_err();
    assert_eq!(
        e,
        Error::GoogleMapsService(
            Status::RequestDenied,
            Some("The provided API key is invalid.".to_string())
        )
    );
    assert_eq!(
        e.message(),
        "Google Maps Geocoding API server: The provided API key is invalid."
    );
}

#[test]
fn ok_status_classifies_as_success() {
    let outcome = decode_outcome("{\"status\":\"OK\",\"results\":[]}").unwrap();
    assert_eq!(classify_outcome(outcome), Ok(Status::Okay));
}

#[test]
fn zero_results_classifies_as_a_service_error() {
    let outcome = decode_outcome("{\"status\":\"ZERO_RESULTS\"}").unwrap();
    let e = classify_outcome(outcome).unwrap_err();
    assert_eq!(e, Error::GoogleMapsService(Status::ZeroResults, None));
    assert_eq!(
        e.message(),
        "Google Maps Geocoding API server: Zero results. This may occur if the geocoder was \
         passed a non-existent address."
    );
}

#[test]
fn unknown_status_code_in_the_body_is_a_codec_error() {
    let r = decode_outcome("{\"status\":\"NOT_A_STATUS\"}");
    assert_eq!(
        r,
        Err(Error::InvalidStatusCode("NOT_A_STATUS".to_string()))
    );
}

#[test]
fn unparsable_body_is_a_decode_error() {
    let r = decode_outcome("not json at all");
    assert!(matches!(r, Err(Error::SerdeJson(_))));
}

#[test]
fn body_without_status_is_a_decode_error() {
    let r = decode_outcome("{\"results\":[]}");
    assert_eq!(
        r,
        Err(Error::SerdeJson("missing or invalid field `status`".to_string()))
    );
}

#[test]
fn non_string_status_is_a_decode_error() {
    let r = decode_outcome("{\"status\":5}");
    assert_eq!(
        r,
        Err(Error::SerdeJson("missing or invalid field `status`".to_string()))
    );
}

#[test]
fn non_string_error_message_reads_as_no_message() {
    let outcome = decode_outcome("{\"status\":\"UNKNOWN_ERROR\",\"error_message\":17}").unwrap();
    assert_eq!(outcome.status, Status::UnknownError);
    assert_eq!(outcome.error_message, None);
}

#[test]
fn http_status_within_2xx_passes() {
    assert_eq!(classify_http_status(200), Ok(()));
    assert_eq!(classify_http_status(299), Ok(()));
}

#[test]
fn http_status_outside_2xx_is_a_transport_error() {
    let e = classify_http_status(404).unwrap_err();
    assert_eq!(e, Error::HttpUnsuccessful("404".to_string()));
    assert_eq!(
        e.message(),
        "Google Maps Geocoding API client: Could not successfully query the Google Cloud \
         Platform service. The service last responded with a `404` status."
    );
    assert_eq!(
        classify_http_status(500),
        Err(Error::HttpUnsuccessful("500".to_string()))
    );
}
