//! The Elevation API: request types for querying elevation data at one or
//! more points on the earth.

pub mod locations;
pub mod request;
