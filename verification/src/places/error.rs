//! Places API error types and error messages.

use vstd::prelude::*;
use vstd::string::StringExecFns;

verus! {

/// Errors that may be produced while decoding Places API response
/// structures.
#[derive(Clone, Debug, Eq, PartialEq)]
pub enum Error {
    /// The body could not be decoded as JSON; carries the JSON decoder's
    /// rendered message.
    SerdeJson(String),
    /// The JSON document did not hold an expected field; carries the
    /// field's name.
    MissingField(String),
    /// A numeric field held a value outside the range its type allows;
    /// carries the field's name.
    NumberOutOfRange(String),
}

impl Error {
    /// The full-sentence explanation rendered for each variant.
    pub open spec fn message_spec(self) -> Seq<char> {
        match self {
            Error::SerdeJson(m) => "Google Maps Places API client in the Serde JSON library: "@
                + m@,
            Error::MissingField(name) => "Google Maps Places API client: the response is missing the expected field `"@
                + name@ + "`."@,
            Error::NumberOutOfRange(name) => "Google Maps Places API client: the field `"@ + name@
                + "` holds a number outside the expected range."@,
        }
    }

    /// Renders the error as a full sentence suitable for direct display.
    pub fn message(&self) -> (r: String)
        ensures
            r@ == self.message_spec(),
    {
        let mut out = String::new();
        match self {
            Error::SerdeJson(m) => {
                out.append("Google Maps Places API client in the Serde JSON library: ");
                out.append(m.as_str());
            },
            Error::MissingField(name) => {
                out.append(
                    "Google Maps Places API client: the response is missing the expected field `",
                );
                out.append(name.as_str());
                out.append("`.");
            },
            Error::NumberOutOfRange(name) => {
                out.append("Google Maps Places API client: the field `");
                out.append(name.as_str());
                out.append("` holds a number outside the expected range.");
            },
        }
        proof {
            assert(out@ =~= self.message_spec());
        }
        out
    }
}

} // verus!
