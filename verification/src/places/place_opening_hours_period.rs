//! An object describing the opening hours of a place, decoded from the
//! Places API's JSON representation.

use crate::json::{
    member_non_null, member_non_null_of, nested_string_member, nested_string_member_of,
    nested_u64_member, nested_u64_member_of, parse_error, parse_error_of,
};
use crate::places::error::Error;
use vstd::prelude::*;
use vstd::string::StringExecFns;

verus! {

/// A pair of day and time values describing when a place opens or
/// closes: a day of the week (0 is Sunday) and a time in 24-hour `hhmm`
/// format.
#[derive(Clone, Debug, Eq, Hash, PartialEq)]
pub struct PlaceOpeningHoursPeriodDetail {
    /// A day of the week, as an integer in the range 0 to 6, starting on
    /// Sunday.
    pub day: u8,
    /// A time of day in 24-hour `hhmm` format, `"0000"` to `"2359"`.
    pub time: String,
}

/// An object describing the opening hours of a place: when it opens and,
/// unless it is always open, when it closes. Clients can rely on
/// always-open being represented as an open period containing day with
/// value 0 and time with value 0000, and no close.
#[derive(Clone, Debug, Eq, Hash, PartialEq)]
pub struct PlaceOpeningHoursPeriod {
    /// When the place opens.
    pub open: PlaceOpeningHoursPeriodDetail,
    /// When the place closes; missing from the response when the place is
    /// always open.
    pub close: Option<PlaceOpeningHoursPeriodDetail>,
}

/// Decodes one day/time detail object under the `outer` member of the
/// document: the `day` number (which must fit a byte) and the `time`
/// string, each failure naming the exact missing or malformed field.
fn detail_fields(s: &str, outer: &str) -> (r: Result<PlaceOpeningHoursPeriodDetail, Error>)
    ensures
        match nested_u64_member_of(s@, outer@, "day"@) {
            None => r matches Err(e) && e matches Error::MissingField(f) && f@ == "day"@,
            Some(n) => if n > 255 {
                r matches Err(e) && e matches Error::NumberOutOfRange(f) && f@ == "day"@
            } else {
                match nested_string_member_of(s@, outer@, "time"@) {
                    None => r matches Err(e) && e matches Error::MissingField(f) && f@ == "time"@,
                    Some(t) => r matches Ok(d) && d.day == n && d.time@ == t,
                }
            },
        },
{
    let day_number = match nested_u64_member(s, outer, "day") {
        Some(n) => n,
        None => {
            return Err(Error::MissingField(String::from_str("day")));
        },
    };
    if day_number > 255 {
        return Err(Error::NumberOutOfRange(String::from_str("day")));
    }
    let time = match nested_string_member(s, outer, "time") {
        Some(t) => t,
        None => {
            return Err(Error::MissingField(String::from_str("time")));
        },
    };
    Ok(PlaceOpeningHoursPeriodDetail { day: day_number as u8, time })
}

impl PlaceOpeningHoursPeriod {
    /// Parses a Google Maps Places API JSON response fragment into a
    /// usable `PlaceOpeningHoursPeriod` struct. The contract fixes the
    /// result for every document over the named JSON readings: an
    /// unparsable document is a decode failure carrying the decoder's
    /// message unchanged; a missing or null `open` member fails naming
    /// `open`, and a malformed detail fails naming `day` or `time`; an
    /// absent or null `close` member yields an always-open period with no
    /// close.
    pub fn from_str(s: &str) -> (r: Result<PlaceOpeningHoursPeriod, Error>)
        ensures
            match parse_error_of(s@) {
                Some(m) => r matches Err(e) && e matches Error::SerdeJson(t) && t@ == m,
                None => if !member_non_null_of(s@, "open"@) {
                    r matches Err(e) && e matches Error::MissingField(f) && f@ == "open"@
                } else {
                    match nested_u64_member_of(s@, "open"@, "day"@) {
                        None => r matches Err(e) && e matches Error::MissingField(f) && f@
                            == "day"@,
                        Some(n) => if n > 255 {
                            r matches Err(e) && e matches Error::NumberOutOfRange(f) && f@
                                == "day"@
                        } else {
                            match nested_string_member_of(s@, "open"@, "time"@) {
                                None => r matches Err(e) && e matches Error::MissingField(f) && f@
                                    == "time"@,
                                Some(t) => if !member_non_null_of(s@, "close"@) {
                                    r matches Ok(p) && p.open.day == n && p.open.time@ == t
                                        && p.close is None
                                } else {
                                    match nested_u64_member_of(s@, "close"@, "day"@) {
                                        None => r matches Err(e) && e matches Error::MissingField(
                                            f,
                                        ) && f@ == "day"@,
                                        Some(m) => if m > 255 {
                                            r matches Err(e) && e matches Error::NumberOutOfRange(
                                                f,
                                            ) && f@ == "day"@
                                        } else {
                                            match nested_string_member_of(s@, "close"@, "time"@) {
                                                None => r matches Err(e) && e matches
                                                Error::MissingField(f) && f@ == "time"@,
                                                Some(u) => r matches Ok(p) && p.open.day == n
                                                    && p.open.time@ == t && (p.close matches Some(
                                                    d,
                                                ) && d.day == m && d.time@ == u),
                                            }
                                        },
                                    }
                                },
                            }
                        },
                    }
                },
            },
    {
        match parse_error(s) {
            Some(m) => {
                return Err(Error::SerdeJson(m));
            },
            None => {},
        }
        if !member_non_null(s, "open") {
            return Err(Error::MissingField(String::from_str("open")));
        }
        let open = detail_fields(s, "open")?;
        let close = if member_non_null(s, "close") {
            Some(detail_fields(s, "close")?)
        } else {
            None
        };
        Ok(PlaceOpeningHoursPeriod { open, close })
    }
}

} // verus!
