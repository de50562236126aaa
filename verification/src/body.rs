use vstd::prelude::*;

use crate::scalar::{Scalar, Vec3, ONE_BITS};

verus! {

/// The catalog of bodies the external ephemeris provider can evaluate.
#[derive(Clone, Copy, PartialEq, Eq, Structural, Debug)]
pub enum Species {
    Mercury,
    Venus,
    Earth,
    Mars,
    Jupiter,
    Saturn,
    Uranus,
    Neptune,
}

/// How a body moves, and the state that its motion carries.
///
/// - `Fixed`: the anchor; it sits at the origin of the absolute frame and a
///   tick does not change it.
/// - `Ephemeris`: the body's absolute position is recomputed on demand by an
///   external analytic provider keyed by the body's time cursor; a tick only
///   advances the cursor.
/// - `Orbit`: a body under two-body dynamics about the body registered at
///   index `central`; it carries its position and velocity relative to that
///   central body, and a tick replaces them with the propagated state.
#[derive(Clone, Copy, PartialEq, Eq, Structural, Debug)]
pub enum Motion {
    Fixed,
    Ephemeris { species: Species, cursor: Scalar },
    Orbit { central: usize, pos: Vec3, vel: Vec3, cursor: Scalar },
}

impl Motion {
    /// The time cursor of a body, if its motion carries one.
    pub open spec fn spec_cursor(self) -> Option<Scalar> {
        match self {
            Motion::Fixed => None,
            Motion::Ephemeris { cursor, .. } => Some(cursor),
            Motion::Orbit { cursor, .. } => Some(cursor),
        }
    }

    /// The index of the central body, for a body in orbit.
    pub open spec fn spec_central(self) -> Option<usize> {
        match self {
            Motion::Orbit { central, .. } => Some(central),
            _ => None,
        }
    }

    /// Whether the motion is an orbit about a central body.
    pub open spec fn spec_is_orbit(self) -> bool {
        self is Orbit
    }
}

/// One registered body: its name, its mass and its motion.
pub struct Body {
    pub name: String,
    pub mass: Scalar,
    pub motion: Motion,
}

/// The mathematical value of a registered body.
pub struct BodyV {
    pub name: Seq<char>,
    pub mass: Scalar,
    pub motion: Motion,
}

impl View for Body {
    type V = BodyV;

    open spec fn view(&self) -> BodyV {
        BodyV { name: self.name@, mass: self.mass, motion: self.motion }
    }
}

/// The six classical orbital elements of an unperturbed two-body orbit, each
/// carried as a binary64 encoding: eccentricity, semi-major axis, argument
/// of periapsis, longitude of the ascending node, inclination and mean
/// anomaly at epoch (angles in radians).
#[derive(Clone, Copy, PartialEq, Eq, Structural, Debug)]
pub struct KeplerParams {
    pub eccentricity: Scalar,
    pub semimajor_axis: Scalar,
    pub periapsis: Scalar,
    pub ascending_node: Scalar,
    pub inclination: Scalar,
    pub mean_anomaly: Scalar,
}

impl KeplerParams {
    /// Packs six element encodings, in the order eccentricity, semi-major
    /// axis, argument of periapsis, longitude of the ascending node,
    /// inclination, mean anomaly.
    pub fn new(e: Scalar, a: Scalar, w: Scalar, u: Scalar, i: Scalar, m: Scalar) -> (p: KeplerParams)
        ensures
            p == (KeplerParams {
                eccentricity: e,
                semimajor_axis: a,
                periapsis: w,
                ascending_node: u,
                inclination: i,
                mean_anomaly: m,
            }),
    {
        KeplerParams {
            eccentricity: e,
            semimajor_axis: a,
            periapsis: w,
            ascending_node: u,
            inclination: i,
            mean_anomaly: m,
        }
    }

    /// A well-formed element set: every element is finite and the
    /// eccentricity encodes a value in `[0, 1)`. An encoding with its sign
    /// bit clear and below the encoding of one denotes exactly such a value,
    /// the negative zero encoding excepted (its sign bit is set).
    pub open spec fn spec_is_valid(self) -> bool {
        &&& self.eccentricity.bits < ONE_BITS
        &&& self.semimajor_axis.spec_is_finite()
        &&& self.periapsis.spec_is_finite()
        &&& self.ascending_node.spec_is_finite()
        &&& self.inclination.spec_is_finite()
        &&& self.mean_anomaly.spec_is_finite()
    }

    /// Checks the element set: near-parabolic and hyperbolic eccentricities
    /// (and non-finite elements) make the eccentric anomaly solve and the
    /// conversion ill-conditioned, so callers can reject them up front.
    #[verifier::when_used_as_spec(spec_is_valid)]
    pub fn is_valid(self) -> (r: bool)
        ensures
            r == self.spec_is_valid(),
    {
        self.eccentricity.bits < ONE_BITS && self.semimajor_axis.is_finite()
            && self.periapsis.is_finite() && self.ascending_node.is_finite()
            && self.inclination.is_finite() && self.mean_anomaly.is_finite()
    }
}

/// A propagated state: the position and velocity of an orbiting body
/// relative to its central body, as handed back by the numerical integrator.
#[derive(Clone, Copy, PartialEq, Eq, Structural, Debug)]
pub struct OrbitState {
    pub pos: Vec3,
    pub vel: Vec3,
}

impl OrbitState {
    /// Builds a state from a position and a velocity.
    pub fn new(pos: Vec3, vel: Vec3) -> (s: OrbitState)
        ensures
            s == (OrbitState { pos, vel }),
    {
        OrbitState { pos, vel }
    }

    /// All six components are finite.
    pub open spec fn spec_is_finite(self) -> bool {
        self.pos.spec_is_finite() && self.vel.spec_is_finite()
    }

    /// Classifies the state as finite componentwise.
    #[verifier::when_used_as_spec(spec_is_finite)]
    pub fn is_finite(self) -> (r: bool)
        ensures
            r == self.spec_is_finite(),
    {
        self.pos.is_finite() && self.vel.is_finite()
    }
}

} // verus!
