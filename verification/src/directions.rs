//! The Directions API: types for specifying intermediate locations along a
//! route.

pub mod waypoint;
