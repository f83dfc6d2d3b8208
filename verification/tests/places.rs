//! Decoding place opening hours and building autocomplete requests.

use google_maps::client::GoogleMapsClient;
use google_maps::places::error::Error;
use google_maps::places::place_autocomplete::Request;
use google_maps::places::place_opening_hours_period::{
    PlaceOpeningHoursPeriod, PlaceOpeningHoursPeriodDetail,
};
use google_maps::types::latlng::{Decimal, LatLng};

#[test]
fn opening_hours_period_parses_open_and_close() {
    let body = "{\"open\":{\"day\":1,\"time\":\"0900\"},\"close\":{\"day\":1,\"time\":\"1730\"}}";
    let period = PlaceOpeningHoursPeriod::from_str(body).unwrap();
    assert_eq!(
        period,
        PlaceOpeningHoursPeriod {
            open: PlaceOpeningHoursPeriodDetail { day: 1, time: "0900".to_string() },
            close: Some(PlaceOpeningHoursPeriodDetail { day: 1, time: "1730".to_string() }),
        }
    );
}

#[test]
fn always_open_has_day_zero_time_zero_and_no_close() {
    let body = "{\"open\":{\"day\":0,\"time\":\"0000\"}}";
    let period = PlaceOpeningHoursPeriod::from_str(body).unwrap();
    assert_eq!(period.open.day, 0);
    assert_eq!(period.open.time, "0000");
    assert_eq!(period.close, None);
}

#[test]
fn null_close_reads_as_always_open() {
    let body = "{\"open\":{\"day\":0,\"time\":\"0000\"},\"close\":null}";
    let period = PlaceOpeningHoursPeriod::from_str(body).unwrap();
    assert_eq!(period.close, None);
}

#[test]
fn missing_open_fails_naming_the_field() {
    let r = PlaceOpeningHoursPeriod::from_str("{\"close\":{\"day\":1,\"time\":\"1730\"}}");
    assert_eq!(r, Err(Error::MissingField("open".to_string())));
}

#[test]
fn null_open_fails_naming_the_field() {
    let r = PlaceOpeningHoursPeriod::from_str("{\"open\":null}");
    assert_eq!(r, Err(Error::MissingField("open".to_string())));
}

#[test]
fn missing_time_fails_naming_the_field() {
    let r = PlaceOpeningHoursPeriod::from_str("{\"open\":{\"day\":1}}");
    assert_eq!(r, Err(Error::MissingField("time".to_string())));
}

#[test]
fn day_beyond_a_byte_fails_as_out_of_range() {
    let r = PlaceOpeningHoursPeriod::from_str("{\"open\":{\"day\":300,\"time\":\"0000\"}}");
    assert_eq!(r, Err(Error::NumberOutOfRange("day".to_string())));
}

#[test]
fn unparsable_body_fails_as_a_decode_error() {
    let r = PlaceOpeningHoursPeriod::from_str("{");
    assert!(matches!(r, Err(Error::SerdeJson(_))));
}

#[test]
fn missing_field_message_names_the_field() {
    let e = Error::MissingField("open".to_string());
    assert_eq!(
        e.message(),
        "Google Maps Places API client: the response is missing the expected field `open`."
    );
}

#[test]
fn autocomplete_request_records_the_origin() {
    let client = GoogleMapsClient::new("SECRET-REDACTED");
    let origin = LatLng::new(
        Decimal::new(false, 397391536, 7).unwrap(),
        Decimal::new(true, 1049847034, 7).unwrap(),
    )
    .unwrap();
    let mut request = Request::new(&client, "Museum of Contemporary Art");
    assert_eq!(request.origin(), None);
    request.with_origin(origin);
    assert_eq!(request.origin(), Some(origin));
}
