//! Exact-decimal coordinates. A latitude/longitude pair is held as decimal
//! mantissa-and-scale values (never binary floating point) so a coordinate
//! echoes back into a URL with full precision and no drift.

use crate::text::{
    dec_digits, dec_digits_padded, lemma_pow10_28_value, lemma_pow10_mono, lemma_pow10_pos, pow10,
    pow10_spec, push_digits, push_digits_padded,
};
use crate::types::error::Error;
use vstd::prelude::*;
use vstd::string::StringExecFns;

verus! {

/// An exact decimal number: `mantissa / 10^scale`, negated when `neg` is
/// set. `Decimal { neg: true, mantissa: 1049847034, scale: 7 }` is
/// -104.9847034. The scale is kept as given, so 1.50 and 1.5 are distinct
/// values with distinct wire forms.
#[derive(Clone, Copy, Debug, Eq, Hash, PartialEq, Structural)]
pub struct Decimal {
    pub neg: bool,
    pub mantissa: u128,
    pub scale: u32,
}

impl Decimal {
    /// Validity: the scale stays within the 28 fractional digits the wire
    /// format supports, and zero is never marked negative, so equal values
    /// at equal scale have exactly one representation.
    pub open spec fn wf(self) -> bool {
        &&& self.scale <= 28
        &&& (self.neg ==> self.mantissa > 0)
    }

    /// The wire rendering: optional sign, integer digits, and — when the
    /// scale is positive — a point followed by exactly `scale` fractional
    /// digits.
    pub open spec fn wire(self) -> Seq<char> {
        let sign: Seq<char> = if self.neg {
            seq!['-']
        } else {
            Seq::empty()
        };
        let m = self.mantissa as nat;
        let p = pow10_spec(self.scale as nat);
        if self.scale == 0 {
            sign + dec_digits(m)
        } else {
            sign + dec_digits(m / p) + seq!['.'] + dec_digits_padded(m % p, self.scale as nat)
        }
    }

    /// Whether the magnitude is at most `bound` whole degrees.
    pub open spec fn within_degrees(self, bound: nat) -> bool {
        self.mantissa as nat <= bound * pow10_spec(self.scale as nat)
    }

    /// The validating constructor: accepts any scale up to 28 fractional
    /// digits and normalizes a negative zero to plain zero.
    pub fn new(neg: bool, mantissa: u128, scale: u32) -> (r: Option<Decimal>)
        ensures
            r is Some <==> scale <= 28,
            r matches Some(d) ==> d == (Decimal { neg: neg && mantissa > 0, mantissa, scale })
                && d.wf(),
    {
        if scale <= 28 {
            Some(Decimal { neg: neg && mantissa > 0, mantissa, scale })
        } else {
            None
        }
    }

    /// Decides `within_degrees` for bounds up to a full circle.
    pub fn check_within(&self, bound: u128) -> (r: bool)
        requires
            self.wf(),
            bound <= 360,
        ensures
            r == self.within_degrees(bound as nat),
    {
        let p = pow10(self.scale);
        proof {
            lemma_pow10_mono(self.scale as nat, 28);
            lemma_pow10_28_value();
            assert(bound * p <= 360 * pow10_spec(28)) by (nonlinear_arith)
                requires
                    bound <= 360,
                    p <= pow10_spec(28),
            ;
        }
        self.mantissa <= bound * p
    }

    /// Renders the decimal in its wire form.
    pub fn to_wire(&self) -> (r: String)
        requires
            self.wf(),
        ensures
            r@ == self.wire(),
    {
        proof {
            reveal_strlit("-");
            reveal_strlit(".");
        }
        let mut out = String::new();
        if self.neg {
            out.append("-");
        }
        if self.scale == 0 {
            push_digits(self.mantissa, &mut out);
            proof {
                assert(out@ =~= self.wire());
            }
        } else {
            let p = pow10(self.scale);
            proof {
                lemma_pow10_pos(self.scale as nat);
            }
            push_digits(self.mantissa / p, &mut out);
            out.append(".");
            push_digits_padded(self.mantissa % p, self.scale, &mut out);
            proof {
                assert(out@ =~= self.wire());
            }
        }
        out
    }
}

/// A coordinate pair with the invariant −90° ≤ latitude ≤ 90° and
/// −180° ≤ longitude ≤ 180°, established by [`LatLng::new`].
#[derive(Clone, Copy, Debug, Eq, Hash, PartialEq, Structural)]
pub struct LatLng {
    pub lat: Decimal,
    pub lng: Decimal,
}

impl LatLng {
    /// Validity: both components well-formed and inside the coordinate
    /// ranges.
    pub open spec fn wf(self) -> bool {
        &&& self.lat.wf()
        &&& self.lng.wf()
        &&& self.lat.within_degrees(90)
        &&& self.lng.within_degrees(180)
    }

    /// The wire rendering `{lat},{lng}`, both at full precision.
    pub open spec fn wire(self) -> Seq<char> {
        self.lat.wire() + seq![','] + self.lng.wire()
    }

    /// The validating constructor. Fails with a typed error naming the
    /// offending pair whenever a component is out of range; out-of-range
    /// latitude is reported first.
    pub fn new(lat: Decimal, lng: Decimal) -> (r: Result<LatLng, Error>)
        requires
            lat.wf(),
            lng.wf(),
        ensures
            lat.within_degrees(90) && lng.within_degrees(180) ==> r == Ok::<LatLng, Error>(
                LatLng { lat, lng },
            ),
            !lat.within_degrees(90) ==> r == Err::<LatLng, Error>(Error::InvalidLatitude(lat, lng)),
            lat.within_degrees(90) && !lng.within_degrees(180) ==> r == Err::<LatLng, Error>(
                Error::InvalidLongitude(lat, lng),
            ),
            r matches Ok(ll) ==> ll.wf(),
    {
        if !lat.check_within(90) {
            Err(Error::InvalidLatitude(lat, lng))
        } else if !lng.check_within(180) {
            Err(Error::InvalidLongitude(lat, lng))
        } else {
            Ok(LatLng { lat, lng })
        }
    }

    /// Renders the pair in its wire form.
    pub fn to_wire(&self) -> (r: String)
        requires
            self.wf(),
        ensures
            r@ == self.wire(),
    {
        proof {
            reveal_strlit(",");
        }
        let mut out = self.lat.to_wire();
        out.append(",");
        let lng_wire = self.lng.to_wire();
        out.append(lng_wire.as_str());
        proof {
            assert(out@ =~= self.wire());
        }
        out
    }
}

/// The bounding box of a viewport: its southwest and northeast corners.
#[derive(Clone, Copy, Debug, Eq, Hash, PartialEq, Structural)]
pub struct Bounds {
    pub southwest: LatLng,
    pub northeast: LatLng,
}

impl Bounds {
    /// Validity: both corners are valid coordinates.
    pub open spec fn wf(self) -> bool {
        &&& self.southwest.wf()
        &&& self.northeast.wf()
    }

    /// The wire rendering: the two corners joined with `|`.
    pub open spec fn wire(self) -> Seq<char> {
        self.southwest.wire() + seq!['|'] + self.northeast.wire()
    }

    /// Renders the bounding box in its wire form.
    pub fn to_wire(&self) -> (r: String)
        requires
            self.wf(),
        ensures
            r@ == self.wire(),
    {
        proof {
            reveal_strlit("|");
        }
        let mut out = self.southwest.to_wire();
        out.append("|");
        let ne_wire = self.northeast.to_wire();
        out.append(ne_wire.as_str());
        proof {
            assert(out@ =~= self.wire());
        }
        out
    }
}

} // verus!
