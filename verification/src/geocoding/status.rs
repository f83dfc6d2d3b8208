//! The `"status"` field within a Geocoding API response: the upstream
//! service's reported outcome, as a closed-set string codec.

use crate::geocoding::error::Error;
use crate::text::str_eq;
use vstd::prelude::*;
use vstd::string::StringExecFns;

verus! {

/// Indicates the status of the response.
#[derive(Clone, Copy, Debug, Eq, Hash, Ord, PartialEq, PartialOrd, Structural)]
pub enum Status {
    /// The query (`address`, `components` or `latlng`) is missing, or an
    /// invalid `result_type` or `location_type` was given.
    InvalidRequest,
    /// No errors occurred and at least one geocode was returned.
    Okay,
    /// The API key is missing or invalid, billing is not enabled, a usage
    /// cap has been exceeded, or the method of payment is no longer valid.
    OverDailyLimit,
    /// The requestor has exceeded quota.
    OverQueryLimit,
    /// The API did not complete the request.
    RequestDenied,
    /// The request could not be processed due to a server error; it may
    /// succeed on retry.
    UnknownError,
    /// The geocode was successful but returned no results.
    ZeroResults,
}

impl Status {
    /// The canonical wire string for each status code. This mapping is
    /// injective (see [`lemma_status_wire_injective`]).
    pub open spec fn wire_spec(self) -> Seq<char> {
        match self {
            Status::InvalidRequest => "INVALID_REQUEST"@,
            Status::Okay => "OK"@,
            Status::OverDailyLimit => "OVER_DAILY_LIMIT"@,
            Status::OverQueryLimit => "OVER_QUERY_LIMIT"@,
            Status::RequestDenied => "REQUEST_DENIED"@,
            Status::UnknownError => "UNKNOWN_ERROR"@,
            Status::ZeroResults => "ZERO_RESULTS"@,
        }
    }

    /// The partial inverse of [`Status::wire_spec`]: defined on exactly the
    /// recognized wire strings.
    pub open spec fn from_wire_spec(s: Seq<char>) -> Option<Status> {
        if s == "INVALID_REQUEST"@ {
            Some(Status::InvalidRequest)
        } else if s == "OK"@ {
            Some(Status::Okay)
        } else if s == "OVER_DAILY_LIMIT"@ {
            Some(Status::OverDailyLimit)
        } else if s == "OVER_QUERY_LIMIT"@ {
            Some(Status::OverQueryLimit)
        } else if s == "REQUEST_DENIED"@ {
            Some(Status::RequestDenied)
        } else if s == "UNKNOWN_ERROR"@ {
            Some(Status::UnknownError)
        } else if s == "ZERO_RESULTS"@ {
            Some(Status::ZeroResults)
        } else {
            None
        }
    }

    /// The human-readable display form, used only for presentation and
    /// never for round-tripping.
    pub open spec fn display_spec(self) -> Seq<char> {
        match self {
            Status::InvalidRequest => "Invalid Request"@,
            Status::Okay => "OK"@,
            Status::OverDailyLimit => "Over Daily Limit"@,
            Status::OverQueryLimit => "Over Query Limit"@,
            Status::RequestDenied => "Request Denied"@,
            Status::UnknownError => "Unknown Error"@,
            Status::ZeroResults => "Zero Results"@,
        }
    }

    /// Converts a `Status` enum to a `String` that contains a status code.
    pub fn to_wire(&self) -> (r: String)
        ensures
            r@ == self.wire_spec(),
    {
        match self {
            Status::InvalidRequest => String::from_str("INVALID_REQUEST"),
            Status::Okay => String::from_str("OK"),
            Status::OverDailyLimit => String::from_str("OVER_DAILY_LIMIT"),
            Status::OverQueryLimit => String::from_str("OVER_QUERY_LIMIT"),
            Status::RequestDenied => String::from_str("REQUEST_DENIED"),
            Status::UnknownError => String::from_str("UNKNOWN_ERROR"),
            Status::ZeroResults => String::from_str("ZERO_RESULTS"),
        }
    }

    /// Gets a `Status` enum from a string that contains a valid status
    /// code. An unrecognized code fails with an error carrying the
    /// offending string verbatim.
    pub fn from_wire(code: &str) -> (r: Result<Status, Error>)
        ensures
            match r {
                Ok(v) => Status::from_wire_spec(code@) == Some(v),
                Err(e) => Status::from_wire_spec(code@) is None && (e matches
                Error::InvalidStatusCode(c) && c@ == code@),
            },
    {
        if str_eq(code, "INVALID_REQUEST") {
            Ok(Status::InvalidRequest)
        } else if str_eq(code, "OK") {
            Ok(Status::Okay)
        } else if str_eq(code, "OVER_DAILY_LIMIT") {
            Ok(Status::OverDailyLimit)
        } else if str_eq(code, "OVER_QUERY_LIMIT") {
            Ok(Status::OverQueryLimit)
        } else if str_eq(code, "REQUEST_DENIED") {
            Ok(Status::RequestDenied)
        } else if str_eq(code, "UNKNOWN_ERROR") {
            Ok(Status::UnknownError)
        } else if str_eq(code, "ZERO_RESULTS") {
            Ok(Status::ZeroResults)
        } else {
            Err(Error::InvalidStatusCode(String::from_str(code)))
        }
    }

    /// Formats a `Status` enum into a string that is presentable to the
    /// end user.
    pub fn display(&self) -> (r: &'static str)
        ensures
            r@ == self.display_spec(),
    {
        match self {
            Status::InvalidRequest => "Invalid Request",
            Status::Okay => "OK",
            Status::OverDailyLimit => "Over Daily Limit",
            Status::OverQueryLimit => "Over Query Limit",
            Status::RequestDenied => "Request Denied",
            Status::UnknownError => "Unknown Error",
            Status::ZeroResults => "Zero Results",
        }
    }
}

impl Default for Status {
    /// Returns a reasonable default variant for the `Status` enum type.
    fn default() -> (r: Status)
        ensures
            r == Status::Okay,
    {
        Status::Okay
    }
}

impl core::str::FromStr for Status {
    type Err = Error;

    /// Gets a `Status` enum from a string that contains a valid status
    /// code, as [`Status::from_wire`] does.
    fn from_str(code: &str) -> Result<Status, Error> {
        Status::from_wire(code)
    }
}

/// Decoding a status wire string returns exactly the status it came from:
/// the round trip holds for every member of the enumeration.
pub proof fn lemma_status_round_trip(v: Status)
    ensures
        Status::from_wire_spec(v.wire_spec()) == Some(v),
{
    reveal_strlit("INVALID_REQUEST");
    reveal_strlit("OK");
    reveal_strlit("OVER_DAILY_LIMIT");
    reveal_strlit("OVER_QUERY_LIMIT");
    reveal_strlit("REQUEST_DENIED");
    reveal_strlit("UNKNOWN_ERROR");
    reveal_strlit("ZERO_RESULTS");
    match v {
        Status::InvalidRequest => {
            assert(v.wire_spec() == "INVALID_REQUEST"@);
            assert(Status::from_wire_spec("INVALID_REQUEST"@) == Some(Status::InvalidRequest));
            assert(Status::from_wire_spec(v.wire_spec()) == Some(v));
        },
        Status::Okay => {
            assert(v.wire_spec() == "OK"@);
            assert(Status::from_wire_spec("OK"@) == Some(Status::Okay));
            assert(Status::from_wire_spec(v.wire_spec()) == Some(v));
        },
        Status::OverDailyLimit => {
            assert(v.wire_spec() == "OVER_DAILY_LIMIT"@);
            assert(Status::from_wire_spec("OVER_DAILY_LIMIT"@) == Some(Status::OverDailyLimit));
            assert(Status::from_wire_spec(v.wire_spec()) == Some(v));
        },
        Status::OverQueryLimit => {
            assert(v.wire_spec() == "OVER_QUERY_LIMIT"@);
            assert("OVER_QUERY_LIMIT"@[5] != "OVER_DAILY_LIMIT"@[5]);
            assert("OVER_QUERY_LIMIT"@ != "OVER_DAILY_LIMIT"@);
            assert(Status::from_wire_spec("OVER_QUERY_LIMIT"@) == Some(Status::OverQueryLimit));
            assert(Status::from_wire_spec(v.wire_spec()) == Some(v));
        },
        Status::RequestDenied => {
            assert(v.wire_spec() == "REQUEST_DENIED"@);
            assert(Status::from_wire_spec("REQUEST_DENIED"@) == Some(Status::RequestDenied));
            assert(Status::from_wire_spec(v.wire_spec()) == Some(v));
        },
        Status::UnknownError => {
            assert(v.wire_spec() == "UNKNOWN_ERROR"@);
            assert(Status::from_wire_spec("UNKNOWN_ERROR"@) == Some(Status::UnknownError));
            assert(Status::from_wire_spec(v.wire_spec()) == Some(v));
        },
        Status::ZeroResults => {
            assert(v.wire_spec() == "ZERO_RESULTS"@);
            assert(Status::from_wire_spec("ZERO_RESULTS"@) == Some(Status::ZeroResults));
            assert(Status::from_wire_spec(v.wire_spec()) == Some(v));
        },
    }
}

/// The status codec's wire strings are pairwise distinct, so the mapping
/// from variants to wire strings is a bijection onto the recognized set.
pub proof fn lemma_status_wire_injective(a: Status, b: Status)
    requires
        a.wire_spec() == b.wire_spec(),
    ensures
        a == b,
{
    lemma_status_round_trip(a);
    lemma_status_round_trip(b);
}

} // verus!
