//! The Places API: the autocomplete request builder and the typed pieces
//! of place details responses.

pub mod error;
pub mod place_autocomplete;
pub mod place_opening_hours_period;
