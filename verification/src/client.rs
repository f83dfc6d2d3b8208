//! The client configuration shared by every request builder: the
//! application's API key and user-definable settings such as the maximum
//! number of retries the transport collaborator may attempt.

use vstd::prelude::*;
use vstd::string::StringExecFns;

verus! {

/// Contains the application's API key and other user-definable settings.
/// A request builder holds a reference to one client for its whole
/// lifecycle; the client itself holds no request state.
#[derive(Clone, Debug, Eq, PartialEq)]
pub struct GoogleMapsClient {
    /// The application's API key, sent as the `key` query parameter.
    pub key: String,
    /// The maximum number of retries the transport collaborator should
    /// attempt on retryable failures. This core consults it never; it is
    /// carried for the collaborator.
    pub max_retries: u8,
}

impl GoogleMapsClient {
    /// Builds a client configuration around an API key, with the default
    /// retry allowance.
    pub fn new(key: &str) -> (r: GoogleMapsClient)
        ensures
            r.key@ == key@,
            r.max_retries == 5u8,
    {
        GoogleMapsClient { key: String::from_str(key), max_retries: 5 }
    }
}

} // verus!
