use sol_system::anomaly::{newton_decision, SolveStep};
use sol_system::body::{Motion, OrbitState};
use sol_system::scalar::{Scalar, Vec3};
use sol_system::system::{SolError, SolSystem};

const GRAV: f64 = 1.488e-34;
const SOL_MASS: f64 = 1.98847e30;
const EPOCH: f64 = 2459642.5;
const AU: f64 = 1.49597870691e11;
const STEP: f64 = 1e-2;

fn s(x: f64) -> Scalar {
    Scalar::from_bits(x.to_bits())
}

fn f(x: Scalar) -> f64 {
    f64::from_bits(x.bits)
}

fn v3(v: [f64; 3]) -> Vec3 {
    Vec3::new(s(v[0]), s(v[1]), s(v[2]))
}

fn f3(v: Vec3) -> [f64; 3] {
    [f(v.x), f(v.y), f(v.z)]
}

/// Newton-Raphson solve of Kepler's equation, capped at 100 iterations;
/// reports how many iterations it took, or None past the cap.
fn eccentric_anomaly(e: f64, m: f64) -> Option<(f64, u32)> {
    let mut big_e = m;
    let mut iters: u32 = 0;
    loop {
        let delta_m = m - (big_e - e * big_e.sin());
        let delta_e = delta_m / (1.0 - e * big_e.cos());
        big_e += delta_e;
        iters += 1;
        match newton_decision(s(delta_e), iters, 100, s(1e-6)) {
            SolveStep::Converged => return Some((big_e, iters)),
            SolveStep::Exhausted => return None,
            SolveStep::Continue => {},
        }
    }
}

fn rotate(x: f64, y: f64, w: f64, u: f64, inc: f64) -> [f64; 3] {
    [
        x * (w.cos() * u.cos() - w.sin() * inc.cos() * u.sin())
            - y * (w.sin() * u.cos() + w.cos() * inc.cos() * u.sin()),
        x * (w.cos() * u.sin() + w.sin() * inc.cos() * u.cos())
            + y * (w.cos() * inc.cos() * u.cos() - w.sin() * u.sin()),
        x * (w.sin() * inc.sin()) + y * (w.cos() * inc.sin()),
    ]
}

/// Classical elements to a Cartesian state: solve for the eccentric anomaly,
/// derive the true anomaly and radius, lay the state out in the perifocal
/// plane and rotate it into the reference frame.
fn kepler_to_state_vectors(
    e: f64,
    a: f64,
    w: f64,
    u: f64,
    inc: f64,
    m: f64,
    central_mass: f64,
) -> ([f64; 3], [f64; 3]) {
    let mu = central_mass * GRAV;
    let (big_e, _) = eccentric_anomaly(e, m).expect("no convergence");
    let nu = 2.0 * ((1.0 + e).sqrt() * (big_e / 2.0).sin()).atan2(
        (1.0 - e).sqrt() * (big_e / 2.0).cos(),
    );
    let r = a * (1.0 - e * big_e.cos());
    let ox = r * nu.cos();
    let oy = r * nu.sin();
    let k = (mu * a).sqrt() / r;
    let odx = k * (-1.0 * big_e.sin());
    let ody = k * ((1.0 - e * e).sqrt() * big_e.cos());
    (rotate(ox, oy, w, u, inc), rotate(odx, ody, w, u, inc))
}

fn accel(p: [f64; 3], mu: f64) -> [f64; 3] {
    let r = (p[0] * p[0] + p[1] * p[1] + p[2] * p[2]).sqrt();
    let r3 = r * r * r;
    [-mu * p[0] / r3, -mu * p[1] / r3, -mu * p[2] / r3]
}

fn deriv(y: [f64; 6], mu: f64) -> [f64; 6] {
    let a = accel([y[0], y[1], y[2]], mu);
    [y[3], y[4], y[5], a[0], a[1], a[2]]
}

fn rk4_step(y: [f64; 6], mu: f64, h: f64) -> [f64; 6] {
    let k1 = deriv(y, mu);
    let mut y2 = [0.0; 6];
    for i in 0..6 {
        y2[i] = y[i] + 0.5 * h * k1[i];
    }
    let k2 = deriv(y2, mu);
    let mut y3 = [0.0; 6];
    for i in 0..6 {
        y3[i] = y[i] + 0.5 * h * k2[i];
    }
    let k3 = deriv(y3, mu);
    let mut y4 = [0.0; 6];
    for i in 0..6 {
        y4[i] = y[i] + h * k3[i];
    }
    let k4 = deriv(y4, mu);
    let mut out = [0.0; 6];
    for i in 0..6 {
        out[i] = y[i] + h / 6.0 * (k1[i] + 2.0 * k2[i] + 2.0 * k3[i] + k4[i]);
    }
    out
}

/// Fixed-step fourth-order Runge-Kutta over the whole interval; the step
/// count is rounded so the final sample lands on the interval's end.
fn rk4(pos: [f64; 3], vel: [f64; 3], mu: f64, dt: f64, h: f64) -> ([f64; 3], [f64; 3]) {
    let mut y = [pos[0], pos[1], pos[2], vel[0], vel[1], vel[2]];
    let n = ((dt.abs() / h).round() as usize).max(1);
    let hh = dt / n as f64;
    for _ in 0..n {
        y = rk4_step(y, mu, hh);
    }
    ([y[0], y[1], y[2]], [y[3], y[4], y[5]])
}

/// Propagates every orbiting body from the current snapshot and commits one
/// registry tick of `dt` days.
fn drive_tick(sys: &mut SolSystem, dt: f64) {
    let n = sys.body_count();
    let mut states: Vec<OrbitState> = Vec::new();
    for i in 0..n {
        if let Motion::Orbit { central, pos, vel, .. } = sys.motion_of(i) {
            let mu = f(sys.mass_of(central)) * GRAV;
            let (p2, v2) = rk4(f3(pos), f3(vel), mu, dt, STEP);
            states.push(OrbitState::new(v3(p2), v3(v2)));
        }
    }
    let new_time = f(sys.time()) + dt;
    let r = sys.tick(s(new_time), &states);
    assert!(r.is_ok());
}

/// Absolute coordinates of a body: the sum of the local positions along its
/// coordinate chain (ephemeris bodies do not appear in these scenarios).
fn absolute_of(sys: &SolSystem, i: usize) -> [f64; 3] {
    let mut acc = [0.0f64; 3];
    for k in sys.ancestry(i) {
        match sys.motion_of(k) {
            Motion::Fixed => {},
            Motion::Orbit { pos, .. } => {
                let p = f3(pos);
                for c in 0..3 {
                    acc[c] += p[c];
                }
            },
            Motion::Ephemeris { .. } => panic!("ephemeris body in a test chain"),
        }
    }
    acc
}

#[test]
fn kepler_to_state_vector_works() {
    let deg_to_rad = std::f64::consts::PI / 180.0;
    let (pos, vel) = kepler_to_state_vectors(
        9.340419574613645E-02,
        2.279286491077153E+11 / AU,
        2.867429735262922E+02 * deg_to_rad,
        4.949033037641041E+01 * deg_to_rad,
        1.847932354966402E+00 * deg_to_rad,
        3.025677836626235E+02 * deg_to_rad,
        SOL_MASS,
    );

    assert!((pos[0] - -2.013461427639138E-02).abs() < 0.00001, "x = {}", pos[0]);
    assert!((pos[1] - -1.456710381715603).abs() < 0.00001, "y = {}", pos[1]);
    assert!((pos[2] - -3.003544415806017E-02).abs() < 0.00001, "z = {}", pos[2]);
    assert!((vel[0] - 1.451891634280422E-02).abs() < 0.00001, "vx = {}", vel[0]);
    assert!((vel[1] - 1.010174565114862E-03).abs() < 0.00001, "vy = {}", vel[1]);
    assert!((vel[2] - -3.349775733915481E-04).abs() < 0.00001, "vz = {}", vel[2]);

    // The registry reports the converted state back unchanged.
    let mut sys = SolSystem::new("Sol".to_string(), s(SOL_MASS), s(EPOCH));
    let r = sys.add_keplerian("mars-kep".to_string(), s(12.0), &"Sol".to_string(), v3(pos), v3(vel));
    assert_eq!(r, Ok(1));
    let back = absolute_of(&sys, 1);
    assert_eq!(back, pos);
}

#[test]
fn zero_eccentricity_converges_in_one_step_to_a_circle() {
    // With e = 0 the eccentric anomaly equals the mean anomaly exactly and
    // the very first Newton step already lands on it.
    let (big_e, iters) = eccentric_anomaly(0.0, 0.7).unwrap();
    assert_eq!(big_e, 0.7);
    assert_eq!(iters, 1);

    // The orbit is a circle of radius `a`: the distance to the central body
    // stays `a` over a full period, to the integrator's tolerance.
    let a = 1.0;
    let (pos, vel) = kepler_to_state_vectors(0.0, a, 0.0, 0.0, 0.0, 0.7, SOL_MASS);
    let r0 = (pos[0] * pos[0] + pos[1] * pos[1] + pos[2] * pos[2]).sqrt();
    assert!((r0 - a).abs() < 1e-9, "initial radius = {}", r0);

    let mut sys = SolSystem::new("Sol".to_string(), s(SOL_MASS), s(EPOCH));
    sys.add_keplerian("rounder".to_string(), s(1.0), &"Sol".to_string(), v3(pos), v3(vel))
        .unwrap();
    let mu = SOL_MASS * GRAV;
    let period = 2.0 * std::f64::consts::PI * (a * a * a / mu).sqrt();
    let ticks: usize = 16;
    for _ in 0..ticks {
        drive_tick(&mut sys, period / ticks as f64);
        let p = absolute_of(&sys, 1);
        let r = (p[0] * p[0] + p[1] * p[1] + p[2] * p[2]).sqrt();
        assert!((r - a).abs() < 1e-6, "radius drifted to {}", r);
    }
}

#[test]
fn newton_decision_accepts_only_steps_within_tolerance() {
    let tol = s(1e-6);
    assert_eq!(newton_decision(s(9.9e-7), 1, 100, tol), SolveStep::Converged);
    assert_eq!(newton_decision(s(-9.9e-7), 99, 100, tol), SolveStep::Converged);
    assert_eq!(newton_decision(s(1e-6), 100, 100, tol), SolveStep::Converged);
    assert_eq!(newton_decision(s(2e-6), 5, 100, tol), SolveStep::Continue);
    assert_eq!(newton_decision(s(-2e-6), 99, 100, tol), SolveStep::Continue);
    assert_eq!(newton_decision(s(2e-6), 100, 100, tol), SolveStep::Exhausted);
    assert_eq!(newton_decision(s(f64::NAN), 100, 100, tol), SolveStep::Exhausted);
    assert_eq!(newton_decision(s(f64::NAN), 3, 100, tol), SolveStep::Continue);
    assert!(s(-3.0).magnitude_le(s(3.0)));
    assert!(s(3.0).magnitude_le(s(-3.0)));
    assert!(!s(-4.0).magnitude_le(s(3.0)));

    // A parabolic input breaks the very first Newton step (the derivative
    // vanishes at the start), and the cap turns that into a reported
    // failure instead of an unbounded loop.
    assert_eq!(eccentric_anomaly(1.0, 0.0), None);
}

#[test]
fn propagation_is_consistent_across_step_splitting() {
    let (pos, vel) = kepler_to_state_vectors(0.0934, 1.523, 5.0, 0.86, 0.032, 5.28, SOL_MASS);
    let mu = SOL_MASS * GRAV;

    // Forward then backward returns to the start, within integrator error.
    let (p1, v1) = rk4(pos, vel, mu, 10.0, STEP);
    let (p2, v2) = rk4(p1, v1, mu, -10.0, STEP);
    for c in 0..3 {
        assert!((p2[c] - pos[c]).abs() < 1e-9, "pos[{}] came back as {}", c, p2[c]);
        assert!((v2[c] - vel[c]).abs() < 1e-9, "vel[{}] came back as {}", c, v2[c]);
    }

    // Halving the step changes the answer by roughly the fourth-order
    // truncation error, so the two runs agree far beyond the step size.
    let (pa, va) = rk4(pos, vel, mu, 10.0, STEP);
    let (pb, vb) = rk4(pos, vel, mu, 10.0, STEP / 2.0);
    for c in 0..3 {
        assert!((pa[c] - pb[c]).abs() < 1e-10, "pos[{}] split mismatch", c);
        assert!((va[c] - vb[c]).abs() < 1e-10, "vel[{}] split mismatch", c);
    }
}

#[test]
fn registration_order_does_not_affect_independent_bodies() {
    let (pos_x, vel_x) = kepler_to_state_vectors(0.0934, 1.523, 5.0, 0.86, 0.032, 5.28, SOL_MASS);
    let (pos_y, vel_y) = kepler_to_state_vectors(0.0067, 5.2, 4.8, 1.75, 0.022, 0.6, SOL_MASS);

    let mut first = SolSystem::new("Sol".to_string(), s(SOL_MASS), s(EPOCH));
    first.add_keplerian("xanthe".to_string(), s(12.0), &"Sol".to_string(), v3(pos_x), v3(vel_x))
        .unwrap();
    first.add_keplerian("yuty".to_string(), s(11.0), &"Sol".to_string(), v3(pos_y), v3(vel_y))
        .unwrap();

    let mut second = SolSystem::new("Sol".to_string(), s(SOL_MASS), s(EPOCH));
    second.add_keplerian("yuty".to_string(), s(11.0), &"Sol".to_string(), v3(pos_y), v3(vel_y))
        .unwrap();
    second.add_keplerian("xanthe".to_string(), s(12.0), &"Sol".to_string(), v3(pos_x), v3(vel_x))
        .unwrap();

    drive_tick(&mut first, 5.0);
    drive_tick(&mut second, 5.0);

    // The same name reports exactly the same absolute position in both
    // registration orders, bitwise.
    let x_first = first.find_body(&"xanthe".to_string()).unwrap();
    let x_second = second.find_body(&"xanthe".to_string()).unwrap();
    assert_eq!(absolute_of(&first, x_first), absolute_of(&second, x_second));
    let y_first = first.find_body(&"yuty".to_string()).unwrap();
    let y_second = second.find_body(&"yuty".to_string()).unwrap();
    assert_eq!(absolute_of(&first, y_first), absolute_of(&second, y_second));

    // A registry can only anchor a body to one registered before it, so a
    // dependent can never precede its central body and read a stale
    // position: the swapped registration is reported as a failure instead.
    let mut swapped = SolSystem::new("Sol".to_string(), s(SOL_MASS), s(EPOCH));
    let r = swapped.add_keplerian(
        "moon".to_string(),
        s(1.0),
        &"planet".to_string(),
        v3([0.0026, 0.0, 0.0]),
        v3([0.0, 0.0006, 0.0]),
    );
    assert_eq!(r, Err(SolError::UnknownCentral));
}

#[test]
fn dynamic_insertion_composes_with_the_central_position() {
    let mut sys = SolSystem::new("Sol".to_string(), s(SOL_MASS), s(EPOCH));
    let (pos_e, vel_e) = kepler_to_state_vectors(0.0167, 1.0, 1.99, 3.05, 0.0, 6.24, SOL_MASS);
    sys.add_keplerian("earth-kep".to_string(), s(5.972e24), &"Sol".to_string(), v3(pos_e), v3(vel_e))
        .unwrap();
    drive_tick(&mut sys, 3.0);

    // Inserting at the current time anchors to the central body's position
    // at the time of insertion.
    let central_abs = absolute_of(&sys, 1);
    let rel = [0.00257, 0.0, 0.0];
    let r = sys.add_keplerian(
        "Luna-kep".to_string(),
        s(7.342e22),
        &"earth-kep".to_string(),
        v3(rel),
        v3([0.0, 0.00058, 0.0]),
    );
    assert_eq!(r, Ok(2));
    let moon_abs = absolute_of(&sys, 2);
    for c in 0..3 {
        assert_eq!(moon_abs[c], central_abs[c] + rel[c]);
    }
    assert_eq!(sys.ancestry(2), vec![2usize, 1, 0]);
}
