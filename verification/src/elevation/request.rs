//! The Elevation API request builder: accumulates the locations parameter
//! before the query is serialized and handed to the transport
//! collaborator.

use crate::client::GoogleMapsClient;
use crate::elevation::locations::Locations;
use crate::types::latlng::LatLng;
use vstd::prelude::*;

verus! {

/// The specification-level contents of an elevation request: the client's
/// API key and the accumulated locations parameter.
pub struct RequestView {
    pub key: Seq<char>,
    pub locations: Option<Locations>,
}

/// An Elevation API request under construction. Setters overwrite (last
/// write wins) and return the builder for chaining.
pub struct Request<'a> {
    client: &'a GoogleMapsClient,
    locations: Option<Locations>,
}

impl<'a> View for Request<'a> {
    type V = RequestView;

    closed spec fn view(&self) -> RequestView {
        RequestView { key: self.client.key@, locations: self.locations }
    }
}

impl<'a> Request<'a> {
    /// Starts an empty elevation request against the given client
    /// configuration.
    pub fn new(client: &'a GoogleMapsClient) -> (r: Request<'a>)
        ensures
            r@.key == client.key@,
            r@.locations is None,
    {
        Request { client, locations: None }
    }

    /// Adds the _positional request_ parameter to the Elevation API query:
    /// a single coordinate from which to return elevation data.
    pub fn for_positional_request<'b>(&'b mut self, location: LatLng) -> (r: &'b mut Request<'a>)
        ensures
            r@.key == old(self)@.key,
            r@.locations matches Some(Locations::LatLngs(lls)) && lls@ == seq![location],
            *final(self) == *final(r),
    {
        let mut latlngs: Vec<LatLng> = Vec::new();
        latlngs.push(location);
        proof {
            assert(latlngs@ =~= seq![location]);
        }
        self.locations = Some(Locations::LatLngs(latlngs));
        self
    }

    /// The locations parameter accumulated so far.
    pub fn locations(&self) -> (r: &Option<Locations>)
        ensures
            *r == self@.locations,
    {
        &self.locations
    }

    /// Adds a _positional request_ parameter to the Elevation API query:
    /// one or more coordinates, or an encoded polyline.
    pub fn for_positional_requests<'b>(&'b mut self, locations: Locations) -> (r: &'b mut Request<
        'a,
    >)
        ensures
            r@.key == old(self)@.key,
            r@.locations == Some(locations),
            *final(self) == *final(r),
    {
        self.locations = Some(locations);
        self
    }
}

} // verus!
