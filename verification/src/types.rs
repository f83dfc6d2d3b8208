//! Shared types used across the per-API request builders: exact-decimal
//! coordinates, the place-type codec, and the type-level error taxonomy.

pub mod error;
pub mod latlng;
pub mod place_type;
