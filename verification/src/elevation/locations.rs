//! The `Locations` enum and its wire encoding. It specifies the points on
//! the earth from which to return elevation data: one or more
//! latitude/longitude pairs, or an encoded polyline.

use crate::text::{join_sep, lemma_join_push};
use crate::types::latlng::{Decimal, LatLng};
use vstd::prelude::*;
use vstd::string::StringExecFns;

verus! {

/// Defines the location(s) on the earth from which to return elevation
/// data: either latitude/longitude pairs or an encoded polyline.
#[derive(Clone, Debug, Eq, Hash, PartialEq)]
pub enum Locations {
    /// A single or multiple latitude/longitude pairs.
    LatLngs(Vec<LatLng>),
    /// An encoded polyline, passed through verbatim.
    Polyline(String),
}

impl Locations {
    /// Validity: every coordinate carried is in range.
    pub open spec fn wf(self) -> bool {
        match self {
            Locations::LatLngs(latlngs) => forall|i: int|
                0 <= i < latlngs@.len() ==> latlngs@[i].wf(),
            Locations::Polyline(_) => true,
        }
    }

    /// The wire form: coordinate pairs joined with `|`, or the polyline
    /// between `enc:` and a closing colon, the variant encoder's one
    /// polyline syntax.
    pub open spec fn wire_spec(self) -> Seq<char> {
        match self {
            Locations::LatLngs(latlngs) => join_sep(
                latlngs@.map_values(|ll: LatLng| ll.wire()),
                seq!['|'],
            ),
            Locations::Polyline(polyline) => "enc:"@ + polyline@ + ":"@,
        }
    }

    /// Converts a `Locations` enum to a `String` that contains its wire
    /// form.
    pub fn to_wire(&self) -> (r: String)
        requires
            self.wf(),
        ensures
            r@ == self.wire_spec(),
    {
        let mut out = String::new();
        match self {
            Locations::LatLngs(latlngs) => {
                let ghost parts = latlngs@.map_values(|ll: LatLng| ll.wire());
                let mut i: usize = 0;
                while i < latlngs.len()
                    invariant
                        0 <= i <= latlngs@.len(),
                        parts == latlngs@.map_values(|ll: LatLng| ll.wire()),
                        forall|j: int| 0 <= j < latlngs@.len() ==> latlngs@[j].wf(),
                        out@ == join_sep(parts.take(i as int), seq!['|']),
                    decreases latlngs@.len() - i,
                {
                    if i > 0 {
                        out.append("|");
                        proof {
                            reveal_strlit("|");
                            assert("|"@ =~= seq!['|']);
                        }
                    }
                    let encoded = latlngs[i].to_wire();
                    out.append(encoded.as_str());
                    proof {
                        lemma_join_push(parts.take(i as int), seq!['|'], parts[i as int]);
                        assert(parts.take(i as int).push(parts[i as int]) =~= parts.take(
                            i + 1 as int,
                        ));
                    }
                    i = i + 1;
                }
                proof {
                    assert(parts.take(latlngs@.len() as int) =~= parts);
                }
            },
            Locations::Polyline(polyline) => {
                out.append("enc:");
                out.append(polyline.as_str());
                out.append(":");
            },
        }
        proof {
            assert(out@ =~= self.wire_spec());
        }
        out
    }
}

impl Default for Locations {
    /// Returns a reasonable default variant for the `Locations` enum type:
    /// a single coordinate pair at 0.0,0.0.
    fn default() -> (r: Locations)
        ensures
            r matches Locations::LatLngs(lls) && lls@.len() == 1 && lls@[0] == (LatLng {
                lat: Decimal { neg: false, mantissa: 0, scale: 1 },
                lng: Decimal { neg: false, mantissa: 0, scale: 1 },
            }),
            r.wf(),
    {
        let zero = Decimal { neg: false, mantissa: 0, scale: 1 };
        let origin = LatLng { lat: zero, lng: zero };
        let mut latlngs: Vec<LatLng> = Vec::new();
        latlngs.push(origin);
        Locations::LatLngs(latlngs)
    }
}

} // verus!
