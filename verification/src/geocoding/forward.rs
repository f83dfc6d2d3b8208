//! The Geocoding API forward-request builder. Forward geocoding converts a
//! street address to latitude & longitude coordinates. A request is
//! populated through chained setter calls, then validated, then built into
//! a query string, and the built query is handed to the transport
//! collaborator.

use crate::client::GoogleMapsClient;
use crate::geocoding::error::Error;
use crate::text::{join_sep, lemma_join_push};
use crate::types::latlng::Bounds;
use vstd::prelude::*;
use vstd::string::StringExecFns;

verus! {

/// One element of a components filter. Each element fully restricts the
/// results from the geocoder.
#[derive(Clone, Debug, Eq, Hash, PartialEq)]
pub enum Component {
    /// Matches the long or short name of a route.
    Route(String),
    /// Matches against locality and sublocality types.
    Locality(String),
    /// Matches all administrative area levels.
    AdministrativeArea(String),
    /// Matches postal codes and postal code prefixes.
    PostalCode(String),
    /// Matches a country name or a two-letter ISO 3166-1 country code.
    Country(String),
}

impl Component {
    /// The wire form of one filter element: its kind's tag, a colon, and
    /// the value verbatim.
    pub open spec fn wire_spec(self) -> Seq<char> {
        match self {
            Component::Route(v) => "route:"@ + v@,
            Component::Locality(v) => "locality:"@ + v@,
            Component::AdministrativeArea(v) => "administrative_area:"@ + v@,
            Component::PostalCode(v) => "postal_code:"@ + v@,
            Component::Country(v) => "country:"@ + v@,
        }
    }

    /// Renders the filter element in its wire form.
    pub fn to_wire(&self) -> (r: String)
        ensures
            r@ == self.wire_spec(),
    {
        let mut out = String::new();
        match self {
            Component::Route(v) => {
                out.append("route:");
                out.append(v.as_str());
            },
            Component::Locality(v) => {
                out.append("locality:");
                out.append(v.as_str());
            },
            Component::AdministrativeArea(v) => {
                out.append("administrative_area:");
                out.append(v.as_str());
            },
            Component::PostalCode(v) => {
                out.append("postal_code:");
                out.append(v.as_str());
            },
            Component::Country(v) => {
                out.append("country:");
                out.append(v.as_str());
            },
        }
        proof {
            assert(out@ =~= self.wire_spec());
        }
        out
    }
}

/// The specification-level contents of a forward-geocoding request: every
/// optional parameter, the serialized-query cache, and the validated flag.
pub struct ForwardRequestView {
    pub key: Seq<char>,
    pub address: Option<Seq<char>>,
    pub place_id: Option<Seq<char>>,
    pub bounds: Option<Bounds>,
    pub components: Option<Seq<Component>>,
    pub language: Option<Seq<char>>,
    pub region: Option<Seq<char>>,
    pub query: Option<Seq<char>>,
    pub validated: bool,
}

impl ForwardRequestView {
    /// Validity: any bounding box held is made of valid coordinates.
    pub open spec fn wf(self) -> bool {
        self.bounds matches Some(b) ==> b.wf()
    }

    /// The cross-field requirement checked by `validate`: an address, or
    /// at least one component filter element, must be present.
    pub open spec fn has_required_fields(self) -> bool {
        ||| self.address is Some
        ||| (self.components matches Some(cs) && cs.len() > 0)
    }
}

/// The query string serialized from a validated request: the API key
/// first, then every present optional field under its parameter name, in
/// the builder's field order. Values are carried verbatim.
pub open spec fn forward_query_spec(v: ForwardRequestView) -> Seq<char> {
    "key="@ + v.key + (match v.address {
        Some(a) => "&address="@ + a,
        None => Seq::<char>::empty(),
    }) + (match v.place_id {
        Some(p) => "&place_id="@ + p,
        None => Seq::<char>::empty(),
    }) + (match v.bounds {
        Some(b) => "&bounds="@ + b.wire(),
        None => Seq::<char>::empty(),
    }) + (match v.components {
        Some(cs) => "&components="@ + join_sep(
            cs.map_values(|c: Component| c.wire_spec()),
            seq!['|'],
        ),
        None => Seq::<char>::empty(),
    }) + (match v.language {
        Some(l) => "&language="@ + l,
        None => Seq::<char>::empty(),
    }) + (match v.region {
        Some(r) => "&region="@ + r,
        None => Seq::<char>::empty(),
    })
}

/// A forward-geocoding request under construction. The lifecycle is:
/// created empty → populated through chained setters (idempotent
/// overwrites, last write wins) → `validate()` → `build()` → the built
/// query is handed to the transport collaborator through `built_query()`.
pub struct ForwardRequest<'a> {
    client: &'a GoogleMapsClient,
    address: Option<String>,
    place_id: Option<String>,
    bounds: Option<Bounds>,
    components: Option<Vec<Component>>,
    language: Option<String>,
    region: Option<String>,
    query: Option<String>,
    validated: bool,
}

impl<'a> View for ForwardRequest<'a> {
    type V = ForwardRequestView;

    closed spec fn view(&self) -> ForwardRequestView {
        ForwardRequestView {
            key: self.client.key@,
            address: match self.address {
                Some(a) => Some(a@),
                None => None,
            },
            place_id: match self.place_id {
                Some(p) => Some(p@),
                None => None,
            },
            bounds: self.bounds,
            components: match self.components {
                Some(cs) => Some(cs@),
                None => None,
            },
            language: match self.language {
                Some(l) => Some(l@),
                None => None,
            },
            region: match self.region {
                Some(r) => Some(r@),
                None => None,
            },
            query: match self.query {
                Some(q) => Some(q@),
                None => None,
            },
            validated: self.validated,
        }
    }
}

impl<'a> ForwardRequest<'a> {
    /// Starts an empty forward-geocoding request against the given client
    /// configuration: no optional parameter set, not validated, no query
    /// built.
    pub fn new(client: &'a GoogleMapsClient) -> (r: ForwardRequest<'a>)
        ensures
            r@ == (ForwardRequestView {
                key: client.key@,
                address: None,
                place_id: None,
                bounds: None,
                components: None,
                language: None,
                region: None,
                query: None,
                validated: false,
            }),
    {
        ForwardRequest {
            client,
            address: None,
            place_id: None,
            bounds: None,
            components: None,
            language: None,
            region: None,
            query: None,
            validated: false,
        }
    }

    /// Specifies the street address to geocode.
    pub fn with_address<'b>(&'b mut self, address: String) -> (r: &'b mut ForwardRequest<'a>)
        ensures
            r@ == (ForwardRequestView { address: Some(address@), ..old(self)@ }),
            *final(self) == *final(r),
    {
        self.address = Some(address);
        self
    }

    /// Specifies the place ID for which to obtain the address.
    pub fn with_place_id<'b>(&'b mut self, place_id: String) -> (r: &'b mut ForwardRequest<'a>)
        ensures
            r@ == (ForwardRequestView { place_id: Some(place_id@), ..old(self)@ }),
            *final(self) == *final(r),
    {
        self.place_id = Some(place_id);
        self
    }

    /// Specifies the bounding box of the viewport within which to bias
    /// geocode results more prominently.
    pub fn with_bounds<'b>(&'b mut self, bounds: Bounds) -> (r: &'b mut ForwardRequest<'a>)
        ensures
            r@ == (ForwardRequestView { bounds: Some(bounds), ..old(self)@ }),
            *final(self) == *final(r),
    {
        self.bounds = Some(bounds);
        self
    }

    /// Specifies the components filter.
    pub fn with_components<'b>(&'b mut self, components: Vec<Component>) -> (r: &'b mut
        ForwardRequest<'a>)
        ensures
            r@ == (ForwardRequestView { components: Some(components@), ..old(self)@ }),
            *final(self) == *final(r),
    {
        self.components = Some(components);
        self
    }

    /// Specifies the language in which to return results.
    pub fn with_language<'b>(&'b mut self, language: String) -> (r: &'b mut ForwardRequest<'a>)
        ensures
            r@ == (ForwardRequestView { language: Some(language@), ..old(self)@ }),
            *final(self) == *final(r),
    {
        self.language = Some(language);
        self
    }

    /// Specifies the region code by which to bias results.
    pub fn with_region<'b>(&'b mut self, region: String) -> (r: &'b mut ForwardRequest<'a>)
        ensures
            r@ == (ForwardRequestView { region: Some(region@), ..old(self)@ }),
            *final(self) == *final(r),
    {
        self.region = Some(region);
        self
    }

    /// Checks the cross-field requirement: a forward-geocoding request
    /// must specify an address or at least one component filter element.
    /// Succeeds by marking the request validated and fails with the
    /// precondition error, mutating no parameter field either way.
    pub fn validate(&mut self) -> (r: Result<(), Error>)
        ensures
            old(self)@.has_required_fields() ==> r is Ok && final(self)@ == (ForwardRequestView {
                validated: true,
                ..old(self)@
            }),
            !old(self)@.has_required_fields() ==> r == Err::<(), Error>(
                Error::AddressOrComponentsRequired,
            ) && final(self)@ == old(self)@,
    {
        let has_address = self.address.is_some();
        let has_components = match &self.components {
            Some(cs) => cs.len() > 0,
            None => false,
        };
        if has_address || has_components {
            self.validated = true;
            Ok(())
        } else {
            Err(Error::AddressOrComponentsRequired)
        }
    }

    /// Serializes every present optional field into the query string and
    /// caches it. Fails when invoked before `validate()`, mutating
    /// nothing.
    #[verifier::rlimit(100)]
    #[verifier::spinoff_prover]
    pub fn build(&mut self) -> (r: Result<(), Error>)
        requires
            old(self)@.wf(),
        ensures
            old(self)@.validated ==> r is Ok && final(self)@ == (ForwardRequestView {
                query: Some(forward_query_spec(old(self)@)),
                ..old(self)@
            }),
            !old(self)@.validated ==> r == Err::<(), Error>(Error::RequestNotValidated)
                && final(self)@ == old(self)@,
    {
        if !self.validated {
            return Err(Error::RequestNotValidated);
        }
        let ghost v = old(self)@;
        let ghost q1 = "key="@ + v.key;
        let ghost q2 = q1 + (match v.address {
            Some(a) => "&address="@ + a,
            None => Seq::<char>::empty(),
        });
        let ghost q3 = q2 + (match v.place_id {
            Some(p) => "&place_id="@ + p,
            None => Seq::<char>::empty(),
        });
        let ghost q4 = q3 + (match v.bounds {
            Some(b) => "&bounds="@ + b.wire(),
            None => Seq::<char>::empty(),
        });
        let ghost q5 = q4 + (match v.components {
            Some(cs) => "&components="@ + join_sep(
                cs.map_values(|c: Component| c.wire_spec()),
                seq!['|'],
            ),
            None => Seq::<char>::empty(),
        });
        let ghost q6 = q5 + (match v.language {
            Some(l) => "&language="@ + l,
            None => Seq::<char>::empty(),
        });
        let ghost q7 = q6 + (match v.region {
            Some(r) => "&region="@ + r,
            None => Seq::<char>::empty(),
        });
        let mut q = String::new();
        q.append("key=");
        q.append(self.client.key.as_str());
        proof {
            assert(q@ =~= q1);
        }
        match &self.address {
            Some(a) => {
                q.append("&address=");
                q.append(a.as_str());
            },
            None => {},
        }
        proof {
            assert(q@ =~= q2);
        }
        match &self.place_id {
            Some(p) => {
                q.append("&place_id=");
                q.append(p.as_str());
            },
            None => {},
        }
        proof {
            assert(q@ =~= q3);
        }
        match &self.bounds {
            Some(b) => {
                q.append("&bounds=");
                let w = b.to_wire();
                q.append(w.as_str());
            },
            None => {},
        }
        proof {
            assert(q@ =~= q4);
        }
        match &self.components {
            Some(cs) => {
                q.append("&components=");
                let ghost prefix = q@;
                let ghost parts = cs@.map_values(|c: Component| c.wire_spec());
                proof {
                    assert(prefix + join_sep(parts.take(0), seq!['|']) =~= prefix);
                }
                let mut i: usize = 0;
                while i < cs.len()
                    invariant
                        0 <= i <= cs@.len(),
                        parts == cs@.map_values(|c: Component| c.wire_spec()),
                        q@ == prefix + join_sep(parts.take(i as int), seq!['|']),
                    decreases cs@.len() - i,
                {
                    if i > 0 {
                        q.append("|");
                        proof {
                            reveal_strlit("|");
                            assert("|"@ =~= seq!['|']);
                        }
                    }
                    let w = cs[i].to_wire();
                    q.append(w.as_str());
                    proof {
                        lemma_join_push(parts.take(i as int), seq!['|'], parts[i as int]);
                        assert(parts.take(i as int).push(parts[i as int]) =~= parts.take(
                            i + 1 as int,
                        ));
                        assert(q@ =~= prefix + join_sep(parts.take(i + 1 as int), seq!['|']));
                    }
                    i = i + 1;
                }
                proof {
                    assert(parts.take(cs@.len() as int) =~= parts);
                }
            },
            None => {},
        }
        proof {
            assert(q@ =~= q5);
        }
        match &self.language {
            Some(l) => {
                q.append("&language=");
                q.append(l.as_str());
            },
            None => {},
        }
        proof {
            assert(q@ =~= q6);
        }
        match &self.region {
            Some(r) => {
                q.append("&region=");
                q.append(r.as_str());
            },
            None => {},
        }
        proof {
            assert(q@ =~= q7);
            assert(q7 == forward_query_spec(old(self)@));
        }
        self.query = Some(q);
        Ok(())
    }

    /// Hands out the built query string for the transport collaborator.
    /// Fails when invoked before `build()`.
    pub fn built_query(&self) -> (r: Result<String, Error>)
        ensures
            match self@.query {
                Some(q) => r matches Ok(s) && s@ == q,
                None => r == Err::<String, Error>(Error::QueryNotBuilt),
            },
    {
        match &self.query {
            Some(q) => Ok(q.clone()),
            None => Err(Error::QueryNotBuilt),
        }
    }

    /// The full request URL: the Geocoding API's service endpoint followed
    /// by the built query string. Fails as `built_query` does when the
    /// query has not been built yet.
    pub fn query_url(&self) -> (r: Result<String, Error>)
        ensures
            match self@.query {
                Some(q) => r matches Ok(s) && s@
                    == "https://maps.googleapis.com/maps/api/geocode/json?"@ + q,
                None => r == Err::<String, Error>(Error::QueryNotBuilt),
            },
    {
        match &self.query {
            Some(q) => {
                let mut url = String::from_str(
                    "https://maps.googleapis.com/maps/api/geocode/json?",
                );
                url.append(q.as_str());
                Ok(url)
            },
            None => Err(Error::QueryNotBuilt),
        }
    }
}

} // verus!
