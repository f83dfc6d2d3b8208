//! The `Waypoint` enum and its wire encoding. A waypoint specifies an
//! intermediate location as a text address, a latitude & longitude pair, a
//! Google Place ID, or an encoded polyline.

use crate::text::{join_sep, lemma_join_push};
use crate::types::latlng::LatLng;
use vstd::prelude::*;
use vstd::string::StringExecFns;

verus! {

/// Used to specify pass throughs or stopovers at intermediate locations.
/// Exactly one variant is active per value; serialization is
/// variant-specific, lossless for the `LatLng` case and pass-through for
/// the place-ID and polyline cases.
#[derive(Clone, Debug, Eq, Hash, PartialEq)]
pub enum Waypoint {
    /// A free-text address; the Directions service geocodes the string to
    /// coordinates when calculating directions.
    Address(String),
    /// A coordinate pair, used unchanged to calculate directions.
    LatLng(LatLng),
    /// An opaque place identifier, passed through verbatim.
    PlaceId(String),
    /// An encoded set of points under the Encoded Polyline Algorithm,
    /// passed through verbatim.
    Polyline(String),
}

impl Waypoint {
    /// Validity: any coordinate the waypoint carries is in range.
    pub open spec fn wf(self) -> bool {
        match self {
            Waypoint::LatLng(ll) => ll.wf(),
            _ => true,
        }
    }

    /// The wire form of each variant. Encoding is total: every variant has
    /// a defined wire syntax, and this is the single place that knows it.
    pub open spec fn wire_spec(self) -> Seq<char> {
        match self {
            Waypoint::Address(address) => address@,
            Waypoint::LatLng(latlng) => latlng.wire(),
            Waypoint::PlaceId(place_id) => "place_id:"@ + place_id@,
            Waypoint::Polyline(polyline) => "enc:"@ + polyline@ + ":"@,
        }
    }

    /// Converts a `Waypoint` enum to a `String` that contains its wire
    /// form. There is no decode direction: the upstream service never
    /// echoes waypoints back.
    pub fn to_wire(&self) -> (r: String)
        requires
            self.wf(),
        ensures
            r@ == self.wire_spec(),
    {
        let mut out = String::new();
        match self {
            Waypoint::Address(address) => {
                out.append(address.as_str());
            },
            Waypoint::LatLng(latlng) => {
                let w = latlng.to_wire();
                out.append(w.as_str());
            },
            Waypoint::PlaceId(place_id) => {
                out.append("place_id:");
                out.append(place_id.as_str());
            },
            Waypoint::Polyline(polyline) => {
                out.append("enc:");
                out.append(polyline.as_str());
                out.append(":");
            },
        }
        proof {
            assert(out@ =~= self.wire_spec());
        }
        out
    }

    /// The wire form of a list of waypoints: the individual encodings
    /// joined with `|`. The separator is itself part of the wire contract.
    pub open spec fn list_wire_spec(waypoints: Seq<Waypoint>) -> Seq<char> {
        join_sep(waypoints.map_values(|w: Waypoint| w.wire_spec()), seq!['|'])
    }

    /// Encodes a list of waypoints for a multi-valued request parameter.
    pub fn list_to_wire(waypoints: &Vec<Waypoint>) -> (r: String)
        requires
            forall|i: int| 0 <= i < waypoints@.len() ==> waypoints@[i].wf(),
        ensures
            r@ == Waypoint::list_wire_spec(waypoints@),
    {
        let ghost parts = waypoints@.map_values(|w: Waypoint| w.wire_spec());
        let mut out = String::new();
        let mut i: usize = 0;
        while i < waypoints.len()
            invariant
                0 <= i <= waypoints@.len(),
                parts == waypoints@.map_values(|w: Waypoint| w.wire_spec()),
                forall|j: int| 0 <= j < waypoints@.len() ==> waypoints@[j].wf(),
                out@ == join_sep(parts.take(i as int), seq!['|']),
            decreases waypoints@.len() - i,
        {
            if i > 0 {
                out.append("|");
                proof {
                    reveal_strlit("|");
                    assert("|"@ =~= seq!['|']);
                }
            }
            let w = &waypoints[i];
            let encoded = w.to_wire();
            out.append(encoded.as_str());
            proof {
                lemma_join_push(parts.take(i as int), seq!['|'], parts[i as int]);
                assert(parts.take(i as int).push(parts[i as int]) =~= parts.take(i + 1 as int));
            }
            i = i + 1;
        }
        proof {
            assert(parts.take(waypoints@.len() as int) =~= parts);
        }
        out
    }
}

} // verus!
