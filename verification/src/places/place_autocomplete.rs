//! The Place Autocomplete request builder: accumulates the parameters of
//! an autocomplete query.

use crate::client::GoogleMapsClient;
use crate::types::latlng::LatLng;
use vstd::prelude::*;
use vstd::string::StringExecFns;

verus! {

/// The specification-level contents of an autocomplete request: the
/// client's API key, the user's input text, and the optional origin
/// point.
pub struct RequestView {
    pub key: Seq<char>,
    pub input: Seq<char>,
    pub origin: Option<LatLng>,
}

/// A Place Autocomplete request under construction. Setters overwrite
/// (last write wins) and return the builder for chaining.
pub struct Request<'a> {
    client: &'a GoogleMapsClient,
    input: String,
    origin: Option<LatLng>,
}

impl<'a> View for Request<'a> {
    type V = RequestView;

    closed spec fn view(&self) -> RequestView {
        RequestView { key: self.client.key@, input: self.input@, origin: self.origin }
    }
}

impl<'a> Request<'a> {
    /// Starts an autocomplete request for the given input text against
    /// the given client configuration.
    pub fn new(client: &'a GoogleMapsClient, input: &str) -> (r: Request<'a>)
        ensures
            r@.key == client.key@,
            r@.input == input@,
            r@.origin is None,
    {
        Request { client, input: String::from_str(input), origin: None }
    }

    /// The origin parameter recorded so far.
    pub fn origin(&self) -> (r: Option<LatLng>)
        ensures
            r == self@.origin,
    {
        self.origin
    }

    /// Adds the origin parameter to the Place API _Place Autocomplete_
    /// query: the point from which to calculate straight-line distance to
    /// the destination. When omitted, no straight-line distance is
    /// returned.
    pub fn with_origin<'b>(&'b mut self, origin: LatLng) -> (r: &'b mut Request<'a>)
        ensures
            r@ == (RequestView { origin: Some(origin), ..old(self)@ }),
            *final(self) == *final(r),
    {
        self.origin = Some(origin);
        self
    }
}

} // verus!
