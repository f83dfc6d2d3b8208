//! Client library for the Google Maps Platform web services.
//!
//! The library centers on three pieces, each with verified contracts:
//! * closed-set string codecs between enumerations (place types, status
//!   codes) and their canonical wire strings;
//! * a waypoint/location variant encoder producing the exact wire syntax
//!   each request parameter requires;
//! * per-API request builders that validate required fields and serialize
//!   query strings, with a typed error taxonomy for every failure.
//!
//! Transport is not this crate's concern: a caller performs the HTTP
//! exchange with the query strings built here and hands response bodies
//! back for decoding.

pub mod client;
pub mod directions;
pub mod elevation;
pub mod geocoding;
pub mod json;
pub mod places;
pub mod text;
pub mod types;
