use vstd::prelude::*;

use crate::body::{Body, BodyV, Motion, OrbitState, Species};
use crate::scalar::{Scalar, Vec3};

verus! {

/// A failure reported to the immediate caller rather than looped on or
/// ignored: an insertion that names an unknown central body, or a propagated
/// state with a non-finite component.
#[derive(Clone, Copy, PartialEq, Eq, Structural, Debug)]
pub enum SolError {
    UnknownCentral,
    NonFiniteState,
}

/// A snapshot of the registry: the global time and, index-aligned and in
/// registration order, the absolute coordinates and the names of all bodies.
pub struct SolInfo {
    pub time: Scalar,
    pub coords: Vec<Vec3>,
    pub names: Vec<String>,
}

/// The mathematical value of the registry: the body sequence in registration
/// order, and the global time.
pub struct SolSystemV {
    pub bodies: Seq<BodyV>,
    pub time: Scalar,
}

/// Every orbiting body names a central body registered strictly before it,
/// so central-body chains always lead back to an earlier root.
pub open spec fn centrals_wf(bodies: Seq<BodyV>) -> bool {
    forall|i: int|
        0 <= i < bodies.len() ==> match (#[trigger] bodies[i]).motion {
            Motion::Orbit { central, .. } => central < i,
            _ => true,
        }
}

/// Every body that carries a time cursor agrees with the global time: no two
/// bodies are ever left at different simulated times.
pub open spec fn cursors_synced(bodies: Seq<BodyV>, time: Scalar) -> bool {
    forall|i: int|
        0 <= i < bodies.len() ==> match (#[trigger] bodies[i]).motion.spec_cursor() {
            Option::Some(c) => c == time,
            Option::None => true,
        }
}

/// The registry of bodies. It exclusively owns the collection; bodies are
/// appended, never removed, and all mutation goes through the registry, so
/// an orbiting body can address its central body by a stable index.
pub struct SolSystem {
    bodies: Vec<Body>,
    time: Scalar,
}

impl View for SolSystem {
    type V = SolSystemV;

    closed spec fn view(&self) -> SolSystemV {
        SolSystemV { bodies: self.bodies@.map_values(|b: Body| b@), time: self.time }
    }
}

impl SolSystem {
    /// Well-formedness: central references point strictly backwards and all
    /// time cursors equal the global time. Constructors establish it and
    /// every method preserves it.
    pub open spec fn wf(self) -> bool {
        &&& centrals_wf(self@.bodies)
        &&& cursors_synced(self@.bodies, self@.time)
    }

    /// Builds a registry holding only the fixed anchor, at the given initial
    /// global time.
    pub fn new(anchor_name: String, anchor_mass: Scalar, initial_time: Scalar) -> (s: SolSystem)
        ensures
            s.wf(),
            s@.time == initial_time,
            s@.bodies =~= seq![
                (BodyV { name: anchor_name@, mass: anchor_mass, motion: Motion::Fixed }),
            ],
    {
        let mut bodies: Vec<Body> = Vec::new();
        bodies.push(Body { name: anchor_name, mass: anchor_mass, motion: Motion::Fixed });
        let s = SolSystem { bodies, time: initial_time };
        proof {
            assert(s@.bodies =~= seq![
                (BodyV { name: anchor_name@, mass: anchor_mass, motion: Motion::Fixed }),
            ]);
        }
        s
    }

    /// The number of registered bodies.
    pub fn body_count(&self) -> (n: usize)
        ensures
            n == self@.bodies.len(),
    {
        self.bodies.len()
    }

    /// The global time cursor.
    pub fn time(&self) -> (t: Scalar)
        ensures
            t == self@.time,
    {
        self.time
    }

    /// The name of the body at a registration index.
    pub fn name_of(&self, i: usize) -> (name: String)
        requires
            i < self@.bodies.len(),
        ensures
            name@ == self@.bodies[i as int].name,
    {
        self.bodies[i].name.clone()
    }

    /// The mass of the body at a registration index.
    pub fn mass_of(&self, i: usize) -> (m: Scalar)
        requires
            i < self@.bodies.len(),
        ensures
            m == self@.bodies[i as int].mass,
    {
        self.bodies[i].mass
    }

    /// The motion of the body at a registration index.
    pub fn motion_of(&self, i: usize) -> (m: Motion)
        requires
            i < self@.bodies.len(),
        ensures
            m == self@.bodies[i as int].motion,
    {
        self.bodies[i].motion
    }

    /// Finds the first body registered under a name: the linear scan the
    /// insertion API uses to resolve a central body.
    pub fn find_body(&self, name: &String) -> (r: Option<usize>)
        ensures
            match r {
                Option::Some(i) => {
                    &&& i < self@.bodies.len()
                    &&& self@.bodies[i as int].name == name@
                    &&& forall|j: int|
                        0 <= j < i ==> (#[trigger] self@.bodies[j]).name != name@
                },
                Option::None => forall|j: int|
                    0 <= j < self@.bodies.len() ==> (#[trigger] self@.bodies[j]).name != name@,
            },
    {
        let n = self.bodies.len();
        let mut idx: usize = 0;
        while idx < n
            invariant
                n == self@.bodies.len(),
                idx <= n,
                forall|j: int| 0 <= j < idx ==> (#[trigger] self@.bodies[j]).name != name@,
            decreases n - idx,
        {
            if self.bodies[idx].name == *name {
                return Some(idx);
            }
            idx = idx + 1;
        }
        None
    }

    /// Registers a body whose absolute position the external ephemeris
    /// provider recomputes on demand; its cursor starts at the current
    /// global time. Returns the new body's registration index.
    pub fn add_ephemeris(&mut self, name: String, mass: Scalar, species: Species) -> (idx: usize)
        requires
            old(self).wf(),
        ensures
            final(self).wf(),
            idx == old(self)@.bodies.len(),
            final(self)@.time == old(self)@.time,
            final(self)@.bodies =~= old(self)@.bodies.push(
                BodyV {
                    name: name@,
                    mass,
                    motion: Motion::Ephemeris { species, cursor: old(self)@.time },
                },
            ),
    {
        let ghost old_bodies = self@.bodies;
        let idx = self.bodies.len();
        let cursor = self.time;
        self.bodies.push(Body { name, mass, motion: Motion::Ephemeris { species, cursor } });
        proof {
            assert(self@.bodies =~= old_bodies.push(self.bodies@[idx as int]@));
        }
        idx
    }

    /// Registers a body in orbit about the first body carrying the central
    /// name, anchored at the current global time with the given relative
    /// state; appends it to the registry and returns its registration index.
    /// When no body carries that name, reports `UnknownCentral` and leaves
    /// the registry unchanged.
    pub fn add_keplerian(
        &mut self,
        name: String,
        mass: Scalar,
        central_body_name: &String,
        pos: Vec3,
        vel: Vec3,
    ) -> (r: Result<usize, SolError>)
        requires
            old(self).wf(),
        ensures
            final(self).wf(),
            match r {
                Result::Ok(idx) => {
                    &&& idx == old(self)@.bodies.len()
                    &&& final(self)@.time == old(self)@.time
                    &&& final(self)@.bodies.len() == old(self)@.bodies.len() + 1
                    &&& (forall|j: int|
                        0 <= j < old(self)@.bodies.len() ==> final(self)@.bodies[j]
                            == #[trigger] old(self)@.bodies[j])
                    &&& final(self)@.bodies[idx as int].name == name@
                    &&& final(self)@.bodies[idx as int].mass == mass
                    &&& final(self)@.bodies[idx as int].motion matches Motion::Orbit {
                        central,
                        pos: p,
                        vel: v,
                        cursor,
                    } && {
                        &&& p == pos
                        &&& v == vel
                        &&& cursor == old(self)@.time
                        &&& central < old(self)@.bodies.len()
                        &&& old(self)@.bodies[central as int].name == central_body_name@
                        &&& (forall|j: int|
                            0 <= j < central ==> (#[trigger] old(self)@.bodies[j]).name
                                != central_body_name@)
                    }
                },
                Result::Err(e) => {
                    &&& e == SolError::UnknownCentral
                    &&& final(self)@.bodies =~= old(self)@.bodies
                    &&& final(self)@.time == old(self)@.time
                    &&& forall|j: int|
                        0 <= j < old(self)@.bodies.len() ==> (#[trigger] old(
                            self,
                        )@.bodies[j]).name != central_body_name@
                },
            },
    {
        let found = self.find_body(central_body_name);
        match found {
            Some(c) => {
                let ghost old_bodies = self@.bodies;
                let idx = self.bodies.len();
                let cursor = self.time;
                self.bodies.push(
                    Body { name, mass, motion: Motion::Orbit { central: c, pos, vel, cursor } },
                );
                proof {
                    assert(self@.bodies =~= old_bodies.push(self.bodies@[idx as int]@));
                }
                Ok(idx)
            },
            None => Err(SolError::UnknownCentral),
        }
    }

    /// The number of bodies in orbit: how many propagated states one tick
    /// consumes, one per orbiting body in registration order.
    pub fn orbit_count(&self) -> (n: usize)
        ensures
            n == orbit_count(self@.bodies),
    {
        let len = self.bodies.len();
        let mut idx: usize = 0;
        let mut n: usize = 0;
        while idx < len
            invariant
                len == self@.bodies.len(),
                idx <= len,
                n == orbits_before(self@.bodies, idx as int),
                n <= idx,
            decreases len - idx,
        {
            proof {
                lemma_orbits_before_bounds(self@.bodies, idx as int + 1);
            }
            if let Motion::Orbit { .. } = self.bodies[idx].motion {
                n = n + 1;
            }
            idx = idx + 1;
        }
        n
    }

    /// Advances the whole registry to `new_time` in one pass: the global
    /// time, every time cursor, and — in registration order — the state of
    /// every orbiting body, the `k`-th orbiting body taking `states[k]`.
    ///
    /// The caller propagates each orbiting body's state numerically from the
    /// pre-tick snapshot; masses are fixed and the two-body field of a body
    /// does not read its central body's position, so the states of a single
    /// tick do not depend on one another. A non-finite propagated state is a
    /// fatal propagation error: it is reported and the whole registry is
    /// left unchanged, so it can never corrupt a position report.
    pub fn tick(&mut self, new_time: Scalar, states: &Vec<OrbitState>) -> (r: Result<
        (),
        SolError,
    >)
        requires
            old(self).wf(),
            states@.len() == orbit_count(old(self)@.bodies),
            new_time.spec_is_finite(),
            old(self)@.time.spec_le(new_time),
        ensures
            final(self).wf(),
            (r is Ok) <==> (forall|k: int|
                0 <= k < states@.len() ==> (#[trigger] states@[k]).spec_is_finite()),
            r is Ok ==> {
                &&& final(self)@.time == new_time
                &&& final(self)@.bodies =~= spec_ticked(old(self)@.bodies, new_time, states@)
            },
            r is Err ==> {
                &&& r == Result::<(), SolError>::Err(SolError::NonFiniteState)
                &&& final(self)@.bodies =~= old(self)@.bodies
                &&& final(self)@.time == old(self)@.time
            },
    {
        // First pass: admit the new states only when every component is
        // finite, so a failed propagation leaves the registry untouched.
        let mut k: usize = 0;
        while k < states.len()
            invariant
                self@ == old(self)@,
                old(self).wf(),
                k <= states@.len(),
                forall|j: int| 0 <= j < k ==> (#[trigger] states@[j]).spec_is_finite(),
            decreases states@.len() - k,
        {
            if !states[k].is_finite() {
                return Err(SolError::NonFiniteState);
            }
            k = k + 1;
        }
        // Second pass: commit, rebuilding the collection in registration
        // order from the consistent pre-tick snapshot.
        let len = self.bodies.len();
        let mut new_bodies: Vec<Body> = Vec::new();
        let mut idx: usize = 0;
        let mut next: usize = 0;
        while idx < len
            invariant
                len == old(self)@.bodies.len(),
                self@.bodies == old(self)@.bodies,
                states@.len() == orbit_count(old(self)@.bodies),
                idx <= len,
                next == orbits_before(old(self)@.bodies, idx as int),
                next <= idx,
                new_bodies@.len() == idx,
                forall|j: int|
                    0 <= j < idx ==> (#[trigger] new_bodies@[j])@ == spec_ticked_body(
                        old(self)@.bodies[j],
                        new_time,
                        states@,
                        orbits_before(old(self)@.bodies, j),
                    ),
            decreases len - idx,
        {
            let b = &self.bodies[idx];
            match b.motion {
                Motion::Fixed => {
                    new_bodies.push(
                        Body { name: b.name.clone(), mass: b.mass, motion: Motion::Fixed },
                    );
                },
                Motion::Ephemeris { species, cursor: _ } => {
                    new_bodies.push(
                        Body {
                            name: b.name.clone(),
                            mass: b.mass,
                            motion: Motion::Ephemeris { species, cursor: new_time },
                        },
                    );
                },
                Motion::Orbit { central, pos: _, vel: _, cursor: _ } => {
                    proof {
                        lemma_orbits_before_mono(
                            old(self)@.bodies,
                            idx as int + 1,
                            old(self)@.bodies.len() as int,
                        );
                    }
                    let st = states[next];
                    new_bodies.push(
                        Body {
                            name: b.name.clone(),
                            mass: b.mass,
                            motion: Motion::Orbit {
                                central,
                                pos: st.pos,
                                vel: st.vel,
                                cursor: new_time,
                            },
                        },
                    );
                    next = next + 1;
                },
            }
            idx = idx + 1;
        }
        self.bodies = new_bodies;
        self.time = new_time;
        proof {
            assert(self@.bodies =~= spec_ticked(old(self)@.bodies, new_time, states@));
            lemma_ticked_wf(old(self)@.bodies, new_time, states@);
        }
        Ok(())
    }

    /// Packages a snapshot: the global time and, index-aligned with the
    /// given absolute coordinates, the body names in registration order.
    /// The caller resolves the absolute coordinate of each body by summing
    /// the local positions along its coordinate chain.
    pub fn positions(&self, absolute: Vec<Vec3>) -> (info: SolInfo)
        requires
            absolute@.len() == self@.bodies.len(),
        ensures
            info.time == self@.time,
            info.coords@ == absolute@,
            info.names@.len() == self@.bodies.len(),
            forall|j: int|
                0 <= j < self@.bodies.len() ==> (#[trigger] info.names@[j])@
                    == self@.bodies[j].name,
    {
        let len = self.bodies.len();
        let mut names: Vec<String> = Vec::new();
        let mut idx: usize = 0;
        while idx < len
            invariant
                len == self@.bodies.len(),
                idx <= len,
                names@.len() == idx,
                forall|j: int|
                    0 <= j < idx ==> (#[trigger] names@[j])@ == self@.bodies[j].name,
            decreases len - idx,
        {
            names.push(self.bodies[idx].name.clone());
            idx = idx + 1;
        }
        SolInfo { time: self.time, coords: absolute, names }
    }

    /// The coordinate chain of the body at index `i`, as registration
    /// indices: the body itself, its central body, and so on down to the
    /// root. A caller computes the body's absolute coordinates by summing
    /// the local positions of exactly these bodies.
    pub fn ancestry(&self, i: usize) -> (c: Vec<usize>)
        requires
            self.wf(),
            i < self@.bodies.len(),
        ensures
            c@.map_values(|x: usize| x as int) =~= chain(self@.bodies, i as int),
        decreases i,
    {
        let mut out: Vec<usize> = Vec::new();
        out.push(i);
        if let Motion::Orbit { central, .. } = self.bodies[i].motion {
            proof {
                assert(self@.bodies[i as int].motion == self.bodies@[i as int]@.motion);
            }
            let mut rest = self.ancestry(central);
            out.append(&mut rest);
            proof {
                assert(out@.map_values(|x: usize| x as int) =~= chain(self@.bodies, i as int));
            }
        } else {
            proof {
                assert(out@.map_values(|x: usize| x as int) =~= chain(self@.bodies, i as int));
            }
        }
        out
    }
}

/// The coordinate chain of the body at index `i`: its own index, then its
/// central body's chain, down to a root that is not in orbit (the anchor or
/// an ephemeris body). A body's absolute coordinates are the sum of the
/// local positions of the bodies along this chain, so the chain is the
/// exact decomposition of `coords()` into relative positions.
pub open spec fn chain(bodies: Seq<BodyV>, i: int) -> Seq<int>
    decreases i,
        when 0 <= i < bodies.len() && centrals_wf(bodies)
{
    match bodies[i].motion {
        Motion::Orbit { central, .. } => seq![i] + chain(bodies, central as int),
        _ => seq![i],
    }
}

/// One link of a coordinate chain: the body at `idx` orbits the body at
/// `next`.
pub open spec fn chain_step(bodies: Seq<BodyV>, idx: int, next: int) -> bool {
    bodies[idx].motion matches Motion::Orbit { central, .. } && next == central as int
}

/// Hierarchical composition: every coordinate chain starts at the body
/// itself, follows central references one registration index at a time
/// strictly downwards, and ends at the unique root of the hierarchy that is
/// not itself in orbit. Summing local positions along the chain therefore
/// accumulates exactly the relative positions back to the ultimate fixed
/// frame.
pub proof fn lemma_chain_composition(bodies: Seq<BodyV>, i: int)
    requires
        centrals_wf(bodies),
        0 <= i < bodies.len(),
    ensures
        chain(bodies, i).len() >= 1,
        chain(bodies, i)[0] == i,
        forall|k: int|
            0 <= k < chain(bodies, i).len() ==> 0 <= #[trigger] chain(bodies, i)[k] <= i,
        forall|k: int|
            0 <= k < chain(bodies, i).len() - 1 ==> chain_step(
                bodies,
                #[trigger] chain(bodies, i)[k],
                chain(bodies, i)[k + 1],
            ),
        !(bodies[chain(bodies, i).last()].motion is Orbit),
    decreases i,
{
    match bodies[i].motion {
        Motion::Orbit { central, .. } => {
            lemma_chain_composition(bodies, central as int);
            let rest = chain(bodies, central as int);
            let whole = chain(bodies, i);
            assert(whole == seq![i] + rest);
            assert(whole.last() == rest.last());
            assert forall|k: int| 0 <= k < whole.len() - 1 implies chain_step(
                bodies,
                #[trigger] whole[k],
                whole[k + 1],
            ) by {
                if k == 0 {
                    assert(whole[0] == i);
                    assert(whole[1] == rest[0]);
                } else {
                    assert(whole[k] == rest[k - 1]);
                    assert(whole[k + 1] == rest[k]);
                }
            }
        },
        _ => {},
    }
}

/// The number of orbiting bodies registered at an index below `i`: the rank
/// that decides which propagated state a tick hands to which body.
pub open spec fn orbits_before(bodies: Seq<BodyV>, i: int) -> int
    decreases i,
{
    if i <= 0 {
        0
    } else {
        orbits_before(bodies, i - 1) + (if bodies[i - 1].motion is Orbit {
            1int
        } else {
            0int
        })
    }
}

/// The number of orbiting bodies in the whole registry.
pub open spec fn orbit_count(bodies: Seq<BodyV>) -> int {
    orbits_before(bodies, bodies.len() as int)
}

/// The rank is monotone in the index.
pub proof fn lemma_orbits_before_mono(bodies: Seq<BodyV>, i: int, j: int)
    requires
        0 <= i <= j,
    ensures
        orbits_before(bodies, i) <= orbits_before(bodies, j),
    decreases j - i,
{
    if i < j {
        lemma_orbits_before_mono(bodies, i, j - 1);
    }
}

/// At most one orbiting body per index: the rank stays between zero and the
/// index.
pub proof fn lemma_orbits_before_bounds(bodies: Seq<BodyV>, i: int)
    requires
        0 <= i,
    ensures
        0 <= orbits_before(bodies, i) <= i,
    decreases i,
{
    if 0 < i {
        lemma_orbits_before_bounds(bodies, i - 1);
    }
}

/// What one tick does to one body: a fixed anchor is untouched, an ephemeris
/// body only moves its cursor, and an orbiting body of rank `k` takes the
/// `k`-th propagated state; name, mass and central reference never change.
pub open spec fn spec_ticked_body(
    b: BodyV,
    new_time: Scalar,
    states: Seq<OrbitState>,
    k: int,
) -> BodyV {
    match b.motion {
        Motion::Fixed => b,
        Motion::Ephemeris { species, cursor } => BodyV {
            name: b.name,
            mass: b.mass,
            motion: Motion::Ephemeris { species, cursor: new_time },
        },
        Motion::Orbit { central, pos, vel, cursor } => BodyV {
            name: b.name,
            mass: b.mass,
            motion: Motion::Orbit {
                central,
                pos: states[k].pos,
                vel: states[k].vel,
                cursor: new_time,
            },
        },
    }
}

/// What one tick does to the whole registry: every body is ticked in place,
/// each from its own pre-tick value and its own state slot alone, so the
/// outcome of a completed tick does not depend on the order the bodies are
/// visited in.
pub open spec fn spec_ticked(
    bodies: Seq<BodyV>,
    new_time: Scalar,
    states: Seq<OrbitState>,
) -> Seq<BodyV> {
    Seq::new(
        bodies.len(),
        |i: int| spec_ticked_body(bodies[i], new_time, states, orbits_before(bodies, i)),
    )
}

/// Coordinate chains only look at bodies registered at or below their head,
/// so extending the registry never changes an existing chain.
pub proof fn lemma_chain_prefix(bodies: Seq<BodyV>, longer: Seq<BodyV>, j: int)
    requires
        centrals_wf(bodies),
        centrals_wf(longer),
        bodies.len() <= longer.len(),
        forall|k: int| 0 <= k < bodies.len() ==> #[trigger] longer[k] == bodies[k],
        0 <= j < bodies.len(),
    ensures
        chain(longer, j) == chain(bodies, j),
    decreases j,
{
    match bodies[j].motion {
        Motion::Orbit { central, .. } => {
            lemma_chain_prefix(bodies, longer, central as int);
        },
        _ => {},
    }
}

/// Dynamic insertion composes: registering a new orbiting body leaves every
/// existing coordinate chain unchanged, and the new body's chain is itself
/// followed by its central body's chain — its first absolute position is
/// its initial relative position plus its central body's position at the
/// time of insertion.
pub proof fn lemma_inserted_chain(bodies: Seq<BodyV>, b: BodyV)
    requires
        centrals_wf(bodies),
        b.motion matches Motion::Orbit { central, .. } && central < bodies.len(),
    ensures
        centrals_wf(bodies.push(b)),
        chain(bodies.push(b), bodies.len() as int) == seq![bodies.len() as int] + chain(
            bodies,
            b.motion->Orbit_central as int,
        ),
        forall|j: int|
            0 <= j < bodies.len() ==> chain(bodies.push(b), j) == #[trigger] chain(bodies, j),
{
    let pushed = bodies.push(b);
    assert(centrals_wf(pushed)) by {
        assert forall|i: int| 0 <= i < pushed.len() implies match (#[trigger] pushed[i]).motion {
            Motion::Orbit { central, .. } => central < i,
            _ => true,
        } by {
            if i < bodies.len() {
                assert(pushed[i] == bodies[i]);
            } else {
                assert(pushed[i] == b);
            }
        }
    }
    let c = b.motion->Orbit_central as int;
    lemma_chain_prefix(bodies, pushed, c);
    assert(chain(pushed, bodies.len() as int) == seq![bodies.len() as int] + chain(pushed, c));
    assert forall|j: int| 0 <= j < bodies.len() implies chain(pushed, j) == #[trigger] chain(
        bodies,
        j,
    ) by {
        lemma_chain_prefix(bodies, pushed, j);
    }
}

/// A sequence with the entries at `p` and `q` exchanged: the same registry
/// built in a different registration order.
pub open spec fn swap_two<A>(s: Seq<A>, p: int, q: int) -> Seq<A> {
    s.update(p, s[q]).update(q, s[p])
}

/// Two sequences that agree on which entries are in orbit assign every
/// index the same rank.
pub proof fn lemma_orbits_before_congruent(a: Seq<BodyV>, b: Seq<BodyV>, i: int)
    requires
        0 <= i <= a.len(),
        a.len() == b.len(),
        forall|j: int|
            0 <= j < a.len() ==> ((#[trigger] a[j]).motion is Orbit) == (b[j].motion is Orbit),
    ensures
        orbits_before(a, i) == orbits_before(b, i),
    decreases i,
{
    if 0 < i {
        lemma_orbits_before_congruent(a, b, i - 1);
    }
}

/// An orbiting body's rank is strictly below the rank of any later index.
pub proof fn lemma_rank_strict(bodies: Seq<BodyV>, i: int, j: int)
    requires
        0 <= i < j <= bodies.len(),
        bodies[i].motion is Orbit,
    ensures
        orbits_before(bodies, i) < orbits_before(bodies, j),
{
    lemma_orbits_before_mono(bodies, i + 1, j);
}

/// A coordinate chain that starts away from `p` and `q`, in a hierarchy in
/// which no body orbits `p` or `q`, never meets them, so it is the same
/// chain in any sequence that differs only at `p` and `q`.
pub proof fn lemma_chain_avoids(
    bodies: Seq<BodyV>,
    other: Seq<BodyV>,
    p: int,
    q: int,
    j: int,
)
    requires
        centrals_wf(bodies),
        centrals_wf(other),
        bodies.len() == other.len(),
        forall|k: int| 0 <= k < bodies.len() && k != p && k != q ==> bodies[k] == #[trigger] other[k],
        forall|k: int|
            0 <= k < bodies.len() ==> !(#[trigger] chain_step(bodies, k, p)) && !chain_step(
                bodies,
                k,
                q,
            ),
        0 <= j < bodies.len(),
        j != p,
        j != q,
    ensures
        chain(other, j) == chain(bodies, j),
    decreases j,
{
    match bodies[j].motion {
        Motion::Orbit { central, .. } => {
            assert(!chain_step(bodies, j, p));
            assert(!chain_step(bodies, j, q));
            lemma_chain_avoids(bodies, other, p, q, central as int);
        },
        _ => {},
    }
}

/// Registration order does not matter to bodies that do not depend on each
/// other. Exchanging the registration slots of two orbiting bodies that no
/// body orbits — so neither is on the other's coordinate chain, nor on any
/// third body's — gives a registry that a tick carries to the exchanged
/// ticked registry, with the per-body states following their bodies; and
/// every coordinate chain is unchanged except that the two heads trade
/// slots. Every name therefore reports the same mass, cursor and absolute
/// position after the tick, whichever of the two orders registered it.
pub proof fn lemma_registration_order(
    bodies: Seq<BodyV>,
    states: Seq<OrbitState>,
    new_time: Scalar,
    p: int,
    q: int,
)
    requires
        0 <= p < q < bodies.len(),
        centrals_wf(bodies),
        states.len() == orbit_count(bodies),
        bodies[p].motion is Orbit,
        bodies[q].motion matches Motion::Orbit { central, .. } && central < p,
        forall|k: int|
            0 <= k < bodies.len() ==> !(#[trigger] chain_step(bodies, k, p)) && !chain_step(
                bodies,
                k,
                q,
            ),
    ensures
        centrals_wf(swap_two(bodies, p, q)),
        orbit_count(swap_two(bodies, p, q)) == states.len(),
        spec_ticked(
            swap_two(bodies, p, q),
            new_time,
            swap_two(states, orbits_before(bodies, p), orbits_before(bodies, q)),
        ) =~= swap_two(spec_ticked(bodies, new_time, states), p, q),
        forall|j: int|
            0 <= j < bodies.len() && j != p && j != q ==> chain(swap_two(bodies, p, q), j)
                == #[trigger] chain(bodies, j),
        chain(swap_two(bodies, p, q), p) =~= seq![p] + chain(bodies, q).drop_first(),
        chain(swap_two(bodies, p, q), q) =~= seq![q] + chain(bodies, p).drop_first(),
{
    let other = swap_two(bodies, p, q);
    let rp = orbits_before(bodies, p);
    let rq = orbits_before(bodies, q);
    let sstates = swap_two(states, rp, rq);

    assert(centrals_wf(other)) by {
        assert forall|i: int| 0 <= i < other.len() implies match (#[trigger] other[i]).motion {
            Motion::Orbit { central, .. } => central < i,
            _ => true,
        } by {
            if i == p {
                assert(other[i] == bodies[q]);
            } else if i == q {
                assert(other[i] == bodies[p]);
            } else {
                assert(other[i] == bodies[i]);
            }
        }
    }
    assert forall|j: int|
        0 <= j < bodies.len() implies ((#[trigger] bodies[j]).motion is Orbit) == (
    other[j].motion is Orbit) by {
        if j == p {
            assert(other[p] == bodies[q]);
        } else if j == q {
            assert(other[q] == bodies[p]);
        } else {
            assert(other[j] == bodies[j]);
        }
    }
    lemma_orbits_before_congruent(bodies, other, bodies.len() as int);
    lemma_orbits_before_bounds(bodies, p);
    lemma_rank_strict(bodies, p, q);
    lemma_rank_strict(bodies, q, bodies.len() as int);
    assert(0 <= rp < rq < states.len());

    // The ticked registries correspond entrywise.
    assert forall|i: int| 0 <= i < bodies.len() implies spec_ticked(other, new_time, sstates)[i]
        == swap_two(spec_ticked(bodies, new_time, states), p, q)[i] by {
        lemma_orbits_before_congruent(bodies, other, i);
        if i == p {
            assert(other[p] == bodies[q]);
            assert(orbits_before(other, p) == rp);
            assert(sstates[rp] == states[rq]);
        } else if i == q {
            assert(other[q] == bodies[p]);
            assert(orbits_before(other, q) == rq);
            assert(sstates[rq] == states[rp]);
        } else {
            assert(other[i] == bodies[i]);
            let ri = orbits_before(bodies, i);
            if bodies[i].motion is Orbit {
                lemma_orbits_before_bounds(bodies, i);
                if i < p {
                    lemma_rank_strict(bodies, i, p);
                    lemma_orbits_before_mono(bodies, i, p);
                } else if i < q {
                    lemma_rank_strict(bodies, p, i);
                    lemma_rank_strict(bodies, i, q);
                } else {
                    lemma_rank_strict(bodies, q, i);
                    lemma_rank_strict(bodies, i, bodies.len() as int);
                }
                assert(ri != rp && ri != rq);
                assert(sstates[ri] == states[ri]);
            }
        }
    }

    // Chains away from the exchanged slots are untouched.
    assert forall|j: int| 0 <= j < bodies.len() && j != p && j != q implies chain(other, j)
        == #[trigger] chain(bodies, j) by {
        lemma_chain_avoids(bodies, other, p, q, j);
    }

    // The exchanged bodies keep their own chains below their heads.
    let cq = bodies[q].motion->Orbit_central as int;
    assert(other[p] == bodies[q]);
    assert(chain(other, p) == seq![p] + chain(other, cq));
    lemma_chain_avoids(bodies, other, p, q, cq);
    assert(chain(bodies, q) == seq![q] + chain(bodies, cq));
    assert(chain(bodies, q).drop_first() =~= chain(bodies, cq));

    let cp = bodies[p].motion->Orbit_central as int;
    assert(other[q] == bodies[p]);
    assert(chain(other, q) == seq![q] + chain(other, cp));
    lemma_chain_avoids(bodies, other, p, q, cp);
    assert(chain(bodies, p) == seq![p] + chain(bodies, cp));
    assert(chain(bodies, p).drop_first() =~= chain(bodies, cp));
}

/// A tick never changes a body's name, mass, kind or central reference,
/// nor the number or registration order of the bodies: only cursors and
/// orbital states move.
pub proof fn lemma_tick_preserves_identity(
    bodies: Seq<BodyV>,
    new_time: Scalar,
    states: Seq<OrbitState>,
    i: int,
)
    requires
        0 <= i < bodies.len(),
    ensures
        spec_ticked(bodies, new_time, states).len() == bodies.len(),
        spec_ticked(bodies, new_time, states)[i].name == bodies[i].name,
        spec_ticked(bodies, new_time, states)[i].mass == bodies[i].mass,
        spec_ticked(bodies, new_time, states)[i].motion.spec_central()
            == bodies[i].motion.spec_central(),
        spec_ticked(bodies, new_time, states)[i].motion.spec_is_orbit()
            == bodies[i].motion.spec_is_orbit(),
{
}

/// A tick preserves well-formedness: central references are untouched and
/// every cursor lands exactly on the new global time.
pub proof fn lemma_ticked_wf(bodies: Seq<BodyV>, new_time: Scalar, states: Seq<OrbitState>)
    requires
        centrals_wf(bodies),
    ensures
        centrals_wf(spec_ticked(bodies, new_time, states)),
        cursors_synced(spec_ticked(bodies, new_time, states), new_time),
{
    let ticked = spec_ticked(bodies, new_time, states);
    assert forall|i: int| 0 <= i < ticked.len() implies match (#[trigger] ticked[i]).motion {
        Motion::Orbit { central, .. } => central < i,
        _ => true,
    } by {
        assert(ticked[i] == spec_ticked_body(bodies[i], new_time, states, orbits_before(bodies, i)));
    }
    assert forall|i: int| 0 <= i < ticked.len() implies match (#[trigger] ticked[i]).motion.spec_cursor() {
        Option::Some(c) => c == new_time,
        Option::None => true,
    } by {
        assert(ticked[i] == spec_ticked_body(bodies[i], new_time, states, orbits_before(bodies, i)));
    }
}

} // verus!
