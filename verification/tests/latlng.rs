//! Construction and wire rendering of exact-decimal coordinates.

use google_maps::types::error::Error as TypeError;
use google_maps::types::latlng::{Bounds, Decimal, LatLng};

fn dec(neg: bool, mantissa: u128, scale: u32) -> Decimal {
    Decimal::new(neg, mantissa, scale).unwrap()
}

#[test]
fn latlng_construction_succeeds_and_round_trips_exactly() {
    // Denver, Colorado, the "Mile High City".
    let lat = dec(false, 397391536, 7);
    let lng = dec(true, 1049847034, 7);
    let latlng = LatLng::new(lat, lng).unwrap();
    assert_eq!(latlng.to_wire(), "39.7391536,-104.9847034");
}

#[test]
fn latlng_construction_fails_for_excess_latitude() {
    let lat = dec(false, 90000001, 6);  // 90.000001
    let lng = dec(false, 0, 0);
    let r = LatLng::new(lat, lng);
    assert_eq!(r, Err(TypeError::InvalidLatitude(lat, lng)));
}

#[test]
fn latlng_construction_fails_for_excess_longitude() {
    let lat = dec(false, 0, 0);
    let lng = dec(false, 1805, 1);  // 180.5
    let r = LatLng::new(lat, lng);
    assert_eq!(r, Err(TypeError::InvalidLongitude(lat, lng)));
}

#[test]
fn latlng_accepts_the_extreme_corners() {
    let lat = dec(true, 90, 0);
    let lng = dec(false, 1800000000, 7);  // 180.0000000
    let latlng = LatLng::new(lat, lng).unwrap();
    assert_eq!(latlng.to_wire(), "-90,180.0000000");
}

#[test]
fn decimal_rejects_scale_beyond_twenty_eight() {
    assert!(Decimal::new(false, 1, 29).is_none());
    assert!(Decimal::new(false, 1, 28).is_some());
}

#[test]
fn decimal_normalizes_negative_zero() {
    let zero = dec(true, 0, 1);
    assert_eq!(zero, dec(false, 0, 1));
    assert_eq!(zero.to_wire(), "0.0");
}

#[test]
fn decimal_keeps_trailing_zeros_of_its_scale() {
    assert_eq!(dec(false, 150, 2).to_wire(), "1.50");
    assert_eq!(dec(false, 15, 1).to_wire(), "1.5");
}

#[test]
fn decimal_renders_integers_without_a_point() {
    assert_eq!(dec(false, 39, 0).to_wire(), "39");
    assert_eq!(dec(true, 104, 0).to_wire(), "-104");
}

#[test]
fn decimal_pads_small_fractions_with_zeros() {
    assert_eq!(dec(false, 5, 3).to_wire(), "0.005");
    assert_eq!(dec(true, 1, 7).to_wire(), "-0.0000001");
}

#[test]
fn invalid_latitude_message_names_the_pair() {
    let lat = dec(false, 90000001, 6);
    let lng = dec(false, 1805, 1);
    let e = TypeError::InvalidLatitude(lat, lng);
    assert_eq!(
        e.message(),
        "Google Maps Platform API client: `90.000001` from the `90.000001,180.5` pair is an \
         invalid latitudinal value. A latitude must be between -90.0° and 90.0°."
    );
}

#[test]
fn bounds_wire_joins_the_corners() {
    let sw = LatLng::new(dec(false, 3417, 2), dec(true, 11860, 2)).unwrap();
    let ne = LatLng::new(dec(false, 3423, 2), dec(true, 11850, 2)).unwrap();
    let bounds = Bounds { southwest: sw, northeast: ne };
    assert_eq!(bounds.to_wire(), "34.17,-118.60|34.23,-118.50");
}
