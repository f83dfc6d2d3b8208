//! The forward-geocoding builder pipeline: validate before build, build
//! before the query is handed out, and the serialized query string.

use google_maps::client::GoogleMapsClient;
use google_maps::geocoding::error::Error;
use google_maps::geocoding::forward::{Component, ForwardRequest};
use google_maps::types::latlng::{Bounds, Decimal, LatLng};

#[test]
fn validate_fails_with_neither_address_nor_components() {
    let client = GoogleMapsClient::new("SECRET-REDACTED");
    let mut request = ForwardRequest::new(&client);
    assert_eq!(request.validate(), Err(Error::AddressOrComponentsRequired));
}

#[test]
fn validate_succeeds_with_an_address() {
    let client = GoogleMapsClient::new("SECRET-REDACTED");
    let mut request = ForwardRequest::new(&client);
    request.with_address("1600 Amphitheatre Parkway".to_string());
    assert_eq!(request.validate(), Ok(()));
}

#[test]
fn validate_succeeds_with_a_component() {
    let client = GoogleMapsClient::new("SECRET-REDACTED");
    let mut request = ForwardRequest::new(&client);
    request.with_components(vec![Component::Country("US".to_string())]);
    assert_eq!(request.validate(), Ok(()));
}

#[test]
fn validate_treats_an_empty_component_list_as_absent() {
    let client = GoogleMapsClient::new("SECRET-REDACTED");
    let mut request = ForwardRequest::new(&client);
    request.with_components(vec![]);
    assert_eq!(request.validate(), Err(Error::AddressOrComponentsRequired));
}

#[test]
fn build_before_validate_fails_with_request_not_validated() {
    let client = GoogleMapsClient::new("SECRET-REDACTED");
    let mut request = ForwardRequest::new(&client);
    request.with_address("Denver, CO".to_string());
    assert_eq!(request.build(), Err(Error::RequestNotValidated));
}

#[test]
fn query_before_build_fails_with_query_not_built() {
    let client = GoogleMapsClient::new("SECRET-REDACTED");
    let mut request = ForwardRequest::new(&client);
    request.with_address("Denver, CO".to_string());
    request.validate().unwrap();
    assert_eq!(request.built_query(), Err(Error::QueryNotBuilt));
}

#[test]
fn built_query_serializes_address_only() {
    let client = GoogleMapsClient::new("SECRET-REDACTED");
    let mut request = ForwardRequest::new(&client);
    request.with_address("350 5th Ave, New York, NY".to_string());
    request.validate().unwrap();
    request.build().unwrap();
    assert_eq!(
        request.built_query().unwrap(),
        "key=SECRET-REDACTED&address=350 5th Ave, New York, NY"
    );
}

#[test]
fn built_query_serializes_every_present_field_in_order() {
    let client = GoogleMapsClient::new("SECRET-REDACTED");
    let sw = LatLng::new(
        Decimal::new(false, 3417, 2).unwrap(),
        Decimal::new(true, 11860, 2).unwrap(),
    )
    .unwrap();
    let ne = LatLng::new(
        Decimal::new(false, 3423, 2).unwrap(),
        Decimal::new(true, 11850, 2).unwrap(),
    )
    .unwrap();
    let mut request = ForwardRequest::new(&client);
    request
        .with_address("Winnetka".to_string())
        .with_place_id("ChIJd8BlQ2BZwokRAFUEcm_qrcA".to_string())
        .with_bounds(Bounds { southwest: sw, northeast: ne })
        .with_components(vec![
            Component::Locality("Winnetka".to_string()),
            Component::Country("US".to_string()),
        ])
        .with_language("en".to_string())
        .with_region("us".to_string());
    request.validate().unwrap();
    request.build().unwrap();
    assert_eq!(
        request.built_query().unwrap(),
        "key=SECRET-REDACTED&address=Winnetka&place_id=ChIJd8BlQ2BZwokRAFUEcm_qrcA\
         &bounds=34.17,-118.60|34.23,-118.50&components=locality:Winnetka|country:US\
         &language=en&region=us"
    );
}

#[test]
fn query_url_prefixes_the_service_endpoint() {
    let client = GoogleMapsClient::new("SECRET-REDACTED");
    let mut request = ForwardRequest::new(&client);
    request.with_address("Denver, CO".to_string());
    request.validate().unwrap();
    request.build().unwrap();
    assert_eq!(
        request.query_url().unwrap(),
        "https://maps.googleapis.com/maps/api/geocode/json?key=SECRET-REDACTED&address=Denver, CO"
    );
}

#[test]
fn setters_overwrite_with_the_last_value() {
    let client = GoogleMapsClient::new("SECRET-REDACTED");
    let mut request = ForwardRequest::new(&client);
    request.with_address("first".to_string());
    request.with_address("second".to_string());
    request.validate().unwrap();
    request.build().unwrap();
    assert_eq!(
        request.built_query().unwrap(),
        "key=SECRET-REDACTED&address=second"
    );
}

#[test]
fn request_not_validated_message_names_the_corrective_call() {
    assert_eq!(
        Error::RequestNotValidated.message(),
        "Google Maps Geocoding API client: The request must be validated before a query string \
         may be built. Ensure the validate() method is called before build()."
    );
}

#[test]
fn query_not_built_message_names_the_corrective_call() {
    assert_eq!(
        Error::QueryNotBuilt.message(),
        "Google Maps Geocoding API client: The query string must be built before the request may \
         be sent to the Google Cloud Maps Platform. Ensure the build() method is called before \
         run()."
    );
}

#[test]
fn address_or_components_message_names_the_corrective_calls() {
    assert_eq!(
        Error::AddressOrComponentsRequired.message(),
        "Google Maps Geocoding API client: Forward geocoding requests must specify an `address` \
         or at least one `component`. Ensure that the with_address() and/or with_component \
         methods are being called before run()."
    );
}
