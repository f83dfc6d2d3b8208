//! Round-trip and failure behavior of the closed-set string codecs.

use google_maps::geocoding::error::Error as GeocodingError;
use google_maps::geocoding::status::Status;
use google_maps::types::error::Error as TypeError;
use google_maps::types::place_type::PlaceType;

#[test]
fn status_round_trips_for_every_member() {
    let all = vec![
        Status::InvalidRequest,
        Status::Okay,
        Status::OverDailyLimit,
        Status::OverQueryLimit,
        Status::RequestDenied,
        Status::UnknownError,
        Status::ZeroResults,
    ];
    for status in all {
        let wire = status.to_wire();
        assert_eq!(Status::from_wire(&wire).unwrap(), status);
    }
}

#[test]
fn status_wire_strings_are_canonical() {
    assert_eq!(Status::OverQueryLimit.to_wire(), "OVER_QUERY_LIMIT");
    assert_eq!(Status::Okay.to_wire(), "OK");
    assert_eq!(Status::ZeroResults.to_wire(), "ZERO_RESULTS");
    assert_eq!(Status::InvalidRequest.to_wire(), "INVALID_REQUEST");
    assert_eq!(Status::OverDailyLimit.to_wire(), "OVER_DAILY_LIMIT");
    assert_eq!(Status::RequestDenied.to_wire(), "REQUEST_DENIED");
    assert_eq!(Status::UnknownError.to_wire(), "UNKNOWN_ERROR");
}

#[test]
fn status_from_wire_rejects_unknown_codes() {
    let r = Status::from_wire("over_query_limit");
    assert_eq!(
        r,
        Err(GeocodingError::InvalidStatusCode("over_query_limit".to_string()))
    );
    let r = Status::from_wire("");
    assert_eq!(r, Err(GeocodingError::InvalidStatusCode(String::new())));
}

#[test]
fn status_default_is_ok() {
    assert_eq!(Status::default(), Status::Okay);
}

#[test]
fn status_parses_through_from_str() {
    assert_eq!("ZERO_RESULTS".parse::<Status>().unwrap(), Status::ZeroResults);
    assert!("zero_results".parse::<Status>().is_err());
}

#[test]
fn place_type_parses_through_from_str() {
    assert_eq!("night_club".parse::<PlaceType>().unwrap(), PlaceType::NightClub);
    assert!("night club".parse::<PlaceType>().is_err());
}

#[test]
fn status_display_forms() {
    assert_eq!(Status::OverQueryLimit.display(), "Over Query Limit");
    assert_eq!(Status::Okay.display(), "OK");
    assert_eq!(Status::ZeroResults.display(), "Zero Results");
}

#[test]
fn place_type_round_trips_for_sampled_members() {
    let sample = vec![
        PlaceType::Accounting,
        PlaceType::Airport,
        PlaceType::Atm,
        PlaceType::Cafe,
        PlaceType::DrugStore,
        PlaceType::GroceryOrSupermarket,
        PlaceType::LightRailStation,
        PlaceType::PlusCode,
        PlaceType::Zoo,
        PlaceType::AdministrativeAreaLevel1,
        PlaceType::AdministrativeAreaLevel5,
        PlaceType::ColloquialArea,
        PlaceType::Country,
        PlaceType::Locality,
        PlaceType::PointOfInterest,
        PlaceType::PostalCodePrefix,
        PlaceType::SublocalityLevel3,
        PlaceType::TownSquare,
        PlaceType::Address,
        PlaceType::Regions,
        PlaceType::Cities,
    ];
    for place_type in sample {
        let wire = place_type.to_wire();
        assert_eq!(PlaceType::from_wire(wire).unwrap(), place_type);
    }
}

#[test]
fn place_type_wire_strings_are_canonical() {
    assert_eq!(PlaceType::GroceryOrSupermarket.to_wire(), "grocery_or_supermarket");
    assert_eq!(PlaceType::DrugStore.to_wire(), "drugstore");
    assert_eq!(PlaceType::AdministrativeAreaLevel2.to_wire(), "administrative_area_level_2");
    assert_eq!(PlaceType::PointOfInterest.to_wire(), "point_of_interest");
    assert_eq!(PlaceType::Cities.to_wire(), "cities");
}

#[test]
fn place_type_from_wire_rejects_unknown_codes() {
    let r = PlaceType::from_wire("not_a_real_type");
    assert_eq!(
        r,
        Err(TypeError::InvalidPlaceTypeCode("not_a_real_type".to_string()))
    );
}

#[test]
fn place_type_from_wire_is_case_sensitive() {
    let r = PlaceType::from_wire("Airport");
    assert_eq!(r, Err(TypeError::InvalidPlaceTypeCode("Airport".to_string())));
}

#[test]
fn place_type_default_is_locality() {
    assert_eq!(PlaceType::default(), PlaceType::Locality);
}

#[test]
fn place_type_display_forms() {
    assert_eq!(PlaceType::PointOfInterest.display(), "Point of Interest");
    assert_eq!(PlaceType::Atm.display(), "ATM");
    assert_eq!(PlaceType::RvPark.display(), "RV Park");
    assert_eq!(PlaceType::Cafe.display(), "Café");
}

#[test]
fn place_type_vec_to_csv_joins_wire_codes() {
    let list = vec![PlaceType::Airport, PlaceType::BusStation, PlaceType::TrainStation];
    assert_eq!(PlaceType::vec_to_csv(&list), "airport,bus_station,train_station");
}

#[test]
fn place_type_vec_to_csv_handles_empty_and_single() {
    let empty: Vec<PlaceType> = vec![];
    assert_eq!(PlaceType::vec_to_csv(&empty), "");
    assert_eq!(PlaceType::vec_to_csv(&[PlaceType::Zoo]), "zoo");
}

#[test]
fn invalid_place_type_error_message_names_the_code() {
    let e = TypeError::InvalidPlaceTypeCode("not_a_real_type".to_string());
    assert_eq!(
        e.message(),
        "Google Maps Platform API client: `not_a_real_type` is not a recognized place type code. \
         For a list of supported place types see \
         https://developers.google.com/places/web-service/supported_types"
    );
}

#[test]
fn invalid_status_code_error_message_names_the_code() {
    let e = GeocodingError::InvalidStatusCode("BOGUS".to_string());
    assert_eq!(
        e.message(),
        "Google Maps Geocoding API client: `BOGUS` is not a valid status code. Valid codes are \
         `INVALID_REQUEST`, `OK`, `OVER_DAILY_LIMIT`, `OVER_QUERY_LIMIT`, `REQUEST_DENIED`, \
         `UNKNOWN_ERROR`, and `ZERO_RESULTS`."
    );
}
