//! Accumulating the locations parameter of an elevation request.

use google_maps::client::GoogleMapsClient;
use google_maps::elevation::locations::Locations;
use google_maps::elevation::request::Request;
use google_maps::types::latlng::{Decimal, LatLng};

fn denver() -> LatLng {
    LatLng::new(
        Decimal::new(false, 397391536, 7).unwrap(),
        Decimal::new(true, 1049847034, 7).unwrap(),
    )
    .unwrap()
}

fn death_valley() -> LatLng {
    LatLng::new(
        Decimal::new(false, 3623998, 5).unwrap(),
        Decimal::new(true, 11683171, 5).unwrap(),
    )
    .unwrap()
}

#[test]
fn for_positional_request_records_a_single_coordinate() {
    let client = GoogleMapsClient::new("SECRET-REDACTED");
    let mut request = Request::new(&client);
    assert_eq!(request.locations(), &None);
    request.for_positional_request(denver());
    assert_eq!(
        request.locations(),
        &Some(Locations::LatLngs(vec![denver()]))
    );
}

#[test]
fn for_positional_requests_records_the_whole_parameter() {
    let client = GoogleMapsClient::new("SECRET-REDACTED");
    let mut request = Request::new(&client);
    let locations = Locations::LatLngs(vec![denver(), death_valley()]);
    request.for_positional_requests(locations.clone());
    assert_eq!(request.locations(), &Some(locations));
}

#[test]
fn later_setters_overwrite_earlier_ones() {
    let client = GoogleMapsClient::new("SECRET-REDACTED");
    let mut request = Request::new(&client);
    request.for_positional_requests(Locations::Polyline("gfo}EtohhU".to_string()));
    request.for_positional_request(death_valley());
    assert_eq!(
        request.locations(),
        &Some(Locations::LatLngs(vec![death_valley()]))
    );
}
