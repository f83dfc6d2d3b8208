//! Errors produced by the shared types: failed conversions, out-of-range
//! coordinates, and unrecognized codes.

use crate::types::latlng::Decimal;
use vstd::prelude::*;
use vstd::string::StringExecFns;

verus! {

/// Errors that may be produced by crate types from implementations and
/// associated functions: type conversions, instantiations, and code
/// lookups.
#[derive(Clone, Debug, Eq, PartialEq)]
pub enum Error {
    /// A string did not hold a recognized language code.
    InvalidLanguageCode(String),
    /// A latitude/longitude pair held an invalid latitude.
    InvalidLatitude(Decimal, Decimal),
    /// A latitude/longitude pair held an invalid longitude.
    InvalidLongitude(Decimal, Decimal),
    /// A floating-point value could not be converted to an exact decimal.
    FloatToDecimalConversionError(String),
    /// A bounds string could not be parsed.
    InvalidBoundsString(String),
    /// A string did not hold a recognized country code.
    InvalidCountryCode(String),
    /// A latitude/longitude string could not be parsed.
    InvalidLatLongString(String),
    /// A string did not hold a recognized place type code.
    InvalidPlaceTypeCode(String),
    /// A string did not hold a recognized region code.
    InvalidRegionCode(String),
    /// A string did not hold a recognized location type code.
    InvalidLocationTypeCode(String),
}

impl Error {
    /// Validity: any decimals the error carries are themselves
    /// well-formed, so the message can render them.
    pub open spec fn wf(self) -> bool {
        match self {
            Error::InvalidLatitude(lat, lng) => lat.wf() && lng.wf(),
            Error::InvalidLongitude(lat, lng) => lat.wf() && lng.wf(),
            _ => true,
        }
    }

    /// The full-sentence explanation rendered for each variant, naming the
    /// offending value verbatim.
    pub open spec fn message_spec(self) -> Seq<char> {
        match self {
            Error::InvalidLanguageCode(code) => "Google Maps Platform API client: `"@ + code@
                + "` is not a recognized language code. For a list of supported languages see https://developers.google.com/maps/faq#languagesupport"@,
            Error::InvalidLatitude(lat, lng) => "Google Maps Platform API client: `"@ + lat.wire()
                + "` from the `"@ + lat.wire() + ","@ + lng.wire()
                + "` pair is an invalid latitudinal value. A latitude must be between -90.0° and 90.0°."@,
            Error::InvalidLongitude(lat, lng) => "Google Maps Platform API client: `"@ + lng.wire()
                + "` from the `"@ + lat.wire() + ","@ + lng.wire()
                + "` pair is an invalid longitudinal value. A longitude must be between -180.0° and 180.0°."@,
            Error::FloatToDecimalConversionError(value) => "Google Maps Platform API client: `"@
                + value@ + "` could not be converted from a `f64` type to a `Decimal` type."@,
            Error::InvalidBoundsString(value) => "Google Maps Platform API client: `"@ + value@
                + "` is an invalid `Bounds` string."@,
            Error::InvalidCountryCode(code) => "Google Maps Geocoding API client: `"@ + code@
                + "` is not a valid ISO 3166-1 Alpha-2 country code. Note that the country code must be in uppercase. For a list of country codes see https://en.wikipedia.org/wiki/List_of_ISO_3166_country_codes"@,
            Error::InvalidLatLongString(value) => "Google Maps Platform API client: `"@ + value@
                + "` is an invalid `LatLng` string."@,
            Error::InvalidPlaceTypeCode(code) => "Google Maps Platform API client: `"@ + code@
                + "` is not a recognized place type code. For a list of supported place types see https://developers.google.com/places/web-service/supported_types"@,
            Error::InvalidRegionCode(code) => "Google Maps Platform API client: `"@ + code@
                + "` is not a recognized region code. For a list of supported regions see https://developers.google.com/maps/coverage"@,
            Error::InvalidLocationTypeCode(code) => "Google Maps Geocoding API client: `"@ + code@
                + "` is not a known location type code. Valid codes are `APPROXIMATE`, `GEOMETRIC_CENTER`, `RANGE_INTERPOLATED`, and `ROOFTOP`."@,
        }
    }

    /// Renders the error as a full sentence suitable for direct display.
    pub fn message(&self) -> (r: String)
        requires
            self.wf(),
        ensures
            r@ == self.message_spec(),
    {
        let mut out = String::new();
        match self {
            Error::InvalidLanguageCode(code) => {
                out.append("Google Maps Platform API client: `");
                out.append(code.as_str());
                out.append(
                    "` is not a recognized language code. For a list of supported languages see https://developers.google.com/maps/faq#languagesupport",
                );
            },
            Error::InvalidLatitude(lat, lng) => {
                out.append("Google Maps Platform API client: `");
                let lat_wire = lat.to_wire();
                let lng_wire = lng.to_wire();
                out.append(lat_wire.as_str());
                out.append("` from the `");
                out.append(lat_wire.as_str());
                out.append(",");
                out.append(lng_wire.as_str());
                out.append(
                    "` pair is an invalid latitudinal value. A latitude must be between -90.0° and 90.0°.",
                );
            },
            Error::InvalidLongitude(lat, lng) => {
                out.append("Google Maps Platform API client: `");
                let lat_wire = lat.to_wire();
                let lng_wire = lng.to_wire();
                out.append(lng_wire.as_str());
                out.append("` from the `");
                out.append(lat_wire.as_str());
                out.append(",");
                out.append(lng_wire.as_str());
                out.append(
                    "` pair is an invalid longitudinal value. A longitude must be between -180.0° and 180.0°.",
                );
            },
            Error::FloatToDecimalConversionError(value) => {
                out.append("Google Maps Platform API client: `");
                out.append(value.as_str());
                out.append("` could not be converted from a `f64` type to a `Decimal` type.");
            },
            Error::InvalidBoundsString(value) => {
                out.append("Google Maps Platform API client: `");
                out.append(value.as_str());
                out.append("` is an invalid `Bounds` string.");
            },
            Error::InvalidCountryCode(code) => {
                out.append("Google Maps Geocoding API client: `");
                out.append(code.as_str());
                out.append(
                    "` is not a valid ISO 3166-1 Alpha-2 country code. Note that the country code must be in uppercase. For a list of country codes see https://en.wikipedia.org/wiki/List_of_ISO_3166_country_codes",
                );
            },
            Error::InvalidLatLongString(value) => {
                out.append("Google Maps Platform API client: `");
                out.append(value.as_str());
                out.append("` is an invalid `LatLng` string.");
            },
            Error::InvalidPlaceTypeCode(code) => {
                out.append("Google Maps Platform API client: `");
                out.append(code.as_str());
                out.append(
                    "` is not a recognized place type code. For a list of supported place types see https://developers.google.com/places/web-service/supported_types",
                );
            },
            Error::InvalidRegionCode(code) => {
                out.append("Google Maps Platform API client: `");
                out.append(code.as_str());
                out.append(
                    "` is not a recognized region code. For a list of supported regions see https://developers.google.com/maps/coverage",
                );
            },
            Error::InvalidLocationTypeCode(code) => {
                out.append("Google Maps Geocoding API client: `");
                out.append(code.as_str());
                out.append(
                    "` is not a known location type code. Valid codes are `APPROXIMATE`, `GEOMETRIC_CENTER`, `RANGE_INTERPOLATED`, and `ROOFTOP`.",
                );
            },
        }
        proof {
            assert(out@ =~= self.message_spec());
        }
        out
    }
}

} // verus!
