use vstd::prelude::*;

verus! {

/// Exponent field width of a binary64 encoding.
pub const EXP_SHIFT: u64 = 52;

/// Mask of the exponent field once shifted down.
pub const EXP_MASK: u64 = 0x7ff;

/// Mask of the sign bit of a binary64 encoding.
pub const SIGN_BIT: u64 = 0x8000_0000_0000_0000;

/// Encoding of the value one (used as the exclusive bound for eccentricity).
pub const ONE_BITS: u64 = 0x3ff0_0000_0000_0000;

/// Mask of everything but the sign bit of a binary64 encoding.
pub const MAGNITUDE_MASK: u64 = 0x7fff_ffff_ffff_ffff;

/// A scalar carried as the 64-bit encoding of an IEEE 754 binary64 value.
///
/// The engine never performs arithmetic on the encoded value: it stores,
/// routes and compares scalars, and classifies them by their bit pattern.
/// All arithmetic (orbital element conversion, numerical integration,
/// ephemeris evaluation) happens outside the verified core, which receives
/// the resulting encodings as plain values.
#[derive(Clone, Copy, PartialEq, Eq, Structural, Debug)]
pub struct Scalar {
    pub bits: u64,
}

impl Scalar {
    /// Wraps a raw 64-bit encoding.
    pub fn from_bits(bits: u64) -> (r: Scalar)
        ensures
            r.bits == bits,
    {
        Scalar { bits }
    }

    /// The raw 64-bit encoding.
    pub fn to_bits(self) -> (b: u64)
        ensures
            b == self.bits,
    {
        self.bits
    }

    /// A binary64 encoding denotes a finite value exactly when its exponent
    /// field is not all ones (all ones encodes an infinity or a NaN).
    pub open spec fn spec_is_finite(self) -> bool {
        (self.bits >> EXP_SHIFT) & EXP_MASK != EXP_MASK
    }

    /// Classifies the encoding as finite by its exponent field.
    #[verifier::when_used_as_spec(spec_is_finite)]
    pub fn is_finite(self) -> (r: bool)
        ensures
            r == self.spec_is_finite(),
    {
        (self.bits >> EXP_SHIFT) & EXP_MASK != EXP_MASK
    }

    /// The key of the standard total order on binary64 encodings: encodings
    /// with the sign bit set are complemented, the rest are offset by the
    /// sign bit. Comparing keys as unsigned integers agrees with the numeric
    /// order on finite values, except that the negative zero encoding sorts
    /// strictly below the positive one.
    pub open spec fn spec_order_key(self) -> u64 {
        if self.bits & SIGN_BIT == SIGN_BIT {
            !self.bits
        } else {
            self.bits ^ SIGN_BIT
        }
    }

    /// Whether `self` comes no later than `other` in the total order on
    /// binary64 encodings.
    pub open spec fn spec_le(self, other: Scalar) -> bool {
        self.spec_order_key() <= other.spec_order_key()
    }

    /// Compares two encodings in the total order on binary64 values.
    #[verifier::when_used_as_spec(spec_le)]
    pub fn le(self, other: Scalar) -> (r: bool)
        ensures
            r == self.spec_le(other),
    {
        let k1: u64 = if self.bits & SIGN_BIT == SIGN_BIT {
            !self.bits
        } else {
            self.bits ^ SIGN_BIT
        };
        let k2: u64 = if other.bits & SIGN_BIT == SIGN_BIT {
            !other.bits
        } else {
            other.bits ^ SIGN_BIT
        };
        k1 <= k2
    }
}

impl Scalar {
    /// Whether `self` is no larger in magnitude than `other`. Clearing the
    /// sign bit leaves the exponent and mantissa fields, whose unsigned
    /// order is the order of absolute values on finite encodings; every NaN
    /// encoding sorts above every finite one.
    pub open spec fn spec_magnitude_le(self, other: Scalar) -> bool {
        self.bits & MAGNITUDE_MASK <= other.bits & MAGNITUDE_MASK
    }

    /// Compares two encodings by absolute value.
    #[verifier::when_used_as_spec(spec_magnitude_le)]
    pub fn magnitude_le(self, other: Scalar) -> (r: bool)
        ensures
            r == self.spec_magnitude_le(other),
    {
        self.bits & MAGNITUDE_MASK <= other.bits & MAGNITUDE_MASK
    }
}

/// The total order on encodings is reflexive and transitive, so a time
/// cursor advanced through any number of ticks never moves backwards.
pub proof fn lemma_le_total_order(a: Scalar, b: Scalar, c: Scalar)
    ensures
        a.spec_le(a),
        a.spec_le(b) && b.spec_le(c) ==> a.spec_le(c),
        a.spec_le(b) || b.spec_le(a),
{
}

/// A triple of scalars: a point or a velocity in the heliocentric frame or
/// in a body's local orbital frame.
#[derive(Clone, Copy, PartialEq, Eq, Structural, Debug)]
pub struct Vec3 {
    pub x: Scalar,
    pub y: Scalar,
    pub z: Scalar,
}

impl Vec3 {
    /// Builds a triple from three encodings.
    pub fn new(x: Scalar, y: Scalar, z: Scalar) -> (v: Vec3)
        ensures
            v == (Vec3 { x, y, z }),
    {
        Vec3 { x, y, z }
    }

    /// The origin: all components carry the all-zero encoding, which denotes
    /// positive zero.
    pub open spec fn spec_origin() -> Vec3 {
        Vec3 { x: Scalar { bits: 0 }, y: Scalar { bits: 0 }, z: Scalar { bits: 0 } }
    }

    /// The origin of the absolute frame.
    #[verifier::when_used_as_spec(spec_origin)]
    pub fn origin() -> (v: Vec3)
        ensures
            v == Vec3::spec_origin(),
    {
        Vec3 { x: Scalar { bits: 0 }, y: Scalar { bits: 0 }, z: Scalar { bits: 0 } }
    }

    /// All three components are finite.
    pub open spec fn spec_is_finite(self) -> bool {
        self.x.spec_is_finite() && self.y.spec_is_finite() && self.z.spec_is_finite()
    }

    /// Classifies the triple as finite componentwise.
    #[verifier::when_used_as_spec(spec_is_finite)]
    pub fn is_finite(self) -> (r: bool)
        ensures
            r == self.spec_is_finite(),
    {
        self.x.is_finite() && self.y.is_finite() && self.z.is_finite()
    }
}

} // verus!
