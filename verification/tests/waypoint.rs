//! Wire encoding of the waypoint and locations variants.

use google_maps::directions::waypoint::Waypoint;
use google_maps::elevation::locations::Locations;
use google_maps::types::latlng::{Decimal, LatLng};

fn latlng(neg_lat: bool, lat_m: u128, lat_s: u32, neg_lng: bool, lng_m: u128, lng_s: u32) -> LatLng {
    let lat = Decimal::new(neg_lat, lat_m, lat_s).unwrap();
    let lng = Decimal::new(neg_lng, lng_m, lng_s).unwrap();
    LatLng::new(lat, lng).unwrap()
}

#[test]
fn address_encodes_to_itself_unchanged() {
    let w = Waypoint::Address("350 5th Ave, New York, NY".to_string());
    assert_eq!(w.to_wire(), "350 5th Ave, New York, NY");
}

#[test]
fn place_id_encodes_behind_its_prefix() {
    let w = Waypoint::PlaceId("ChIJd8BlQ2BZwokRAFUEcm_qrcA".to_string());
    assert_eq!(w.to_wire(), "place_id:ChIJd8BlQ2BZwokRAFUEcm_qrcA");
}

#[test]
fn polyline_encodes_between_enc_and_colon() {
    let w = Waypoint::Polyline("_p~iF~ps|U".to_string());
    assert_eq!(w.to_wire(), "enc:_p~iF~ps|U:");
}

#[test]
fn latlng_waypoint_encodes_at_full_precision() {
    let w = Waypoint::LatLng(latlng(false, 397391536, 7, true, 1049847034, 7));
    assert_eq!(w.to_wire(), "39.7391536,-104.9847034");
}

#[test]
fn waypoint_list_joins_with_pipes() {
    let list = vec![
        Waypoint::Address("Denver, CO".to_string()),
        Waypoint::PlaceId("abc".to_string()),
        Waypoint::Polyline("xy".to_string()),
    ];
    assert_eq!(Waypoint::list_to_wire(&list), "Denver, CO|place_id:abc|enc:xy:");
}

#[test]
fn waypoint_list_of_one_has_no_separator() {
    let list = vec![Waypoint::Address("Denver, CO".to_string())];
    assert_eq!(Waypoint::list_to_wire(&list), "Denver, CO");
}

#[test]
fn empty_waypoint_list_encodes_empty() {
    let list: Vec<Waypoint> = vec![];
    assert_eq!(Waypoint::list_to_wire(&list), "");
}

#[test]
fn multi_location_list_encodes_with_pipe_separator() {
    let locations = Locations::LatLngs(vec![
        // Denver, Colorado.
        latlng(false, 397391536, 7, true, 1049847034, 7),
        // Death Valley.
        latlng(false, 3623998, 5, true, 11683171, 5),
    ]);
    assert_eq!(
        locations.to_wire(),
        "39.7391536,-104.9847034|36.23998,-116.83171"
    );
}

#[test]
fn locations_polyline_encodes_between_enc_and_colon() {
    let locations = Locations::Polyline("gfo}EtohhU".to_string());
    assert_eq!(locations.to_wire(), "enc:gfo}EtohhU:");
}

#[test]
fn locations_default_is_a_single_zero_pair() {
    let locations = Locations::default();
    assert_eq!(locations.to_wire(), "0.0,0.0");
}
