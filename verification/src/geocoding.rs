//! The Geocoding API: forward geocoding converts a street address to
//! latitude & longitude coordinates. This module holds the request
//! builder, the response status codec, and the API's error taxonomy.

pub mod error;
pub mod forward;
pub mod response;
pub mod status;
