//! Classification of state vectors onto rails and rail propagation.

use keplerian_sim::reexports::glam::DVec2;
use keplerian_sim::{CompactOrbit2D, Orbit2D, OrbitTrait2D, StateVectors2D};
use railsim::frames::{RootSpaceLinearVelocity, RootSpacePosition, Vec2Fx};
use railsim::fx::FX_ONE;
use railsim::gravity::mu_of_mass;
use railsim::rail_propagation::{
    convert_rail_to_relative_sv, write_rail_to_sv, write_sv_to_rail, ParentData, RailNode,
    TickMotion, VesselData,
};
use railsim::rails::{OrbitRail, RailMode, RelativeStateVectors, SurfaceAttachment};
use railsim::trig::{FX_HALF_PI, FX_PI};

const GRAVITATIONAL_CONSTANT: f64 = 6.6743e-11;

fn rail_fx(v: f64) -> i64 {
    (v * FX_ONE as f64).round() as i64
}

fn rail_unfx(x: i64) -> f64 {
    x as f64 / FX_ONE as f64
}

fn rail_vec(x: f64, y: f64) -> Vec2Fx {
    Vec2Fx { x: rail_fx(x), y: rail_fx(y) }
}

fn rail_vec_of(v: DVec2) -> Vec2Fx {
    rail_vec(v.x, v.y)
}

fn rail_mul_fx(a: i64, b: i64) -> i64 {
    ((a as i128 * b as i128) / FX_ONE as i128) as i64
}

fn rail_close(actual: Vec2Fx, expected: Vec2Fx, rel_tol: f64, what: &str) {
    if actual == expected {
        return;
    }
    let a = DVec2::new(rail_unfx(actual.x), rail_unfx(actual.y));
    let e = DVec2::new(rail_unfx(expected.x), rail_unfx(expected.y));
    let rel = (a - e).length() / ((a + e).length() / 2.0);
    assert!(rel <= rel_tol, "{what}: {a} is not within {rel_tol} of {e} (rel {rel})");
}

#[test]
fn test_writing_to_orbit_rails() {
    let body_mass: u64 = 10;
    let body_mu = body_mass as f64 * GRAVITATIONAL_CONSTANT;

    let vessel_pos = RootSpacePosition(rail_vec(0.0, 12.0));
    let vessel_vel = RootSpaceLinearVelocity(rail_vec(1.0, 0.0));
    let time = rail_fx(1.0 / 64.0);

    let mut vessels = vec![VesselData {
        pos: vessel_pos,
        vel: vessel_vel,
        rail_mode: RailMode::NoRail,
        parent: Some(0),
        contact: false,
    }];
    let parents = vec![ParentData {
        pos: RootSpacePosition(rail_vec(0.0, 0.0)),
        vel: RootSpaceLinearVelocity(rail_vec(0.0, 0.0)),
        mass: body_mass,
    }];

    write_sv_to_rail(&mut vessels, &parents, time);

    let orbit = vessels[0]
        .rail_mode
        .as_orbit()
        .expect("rail mode should be orbit");
    let expected_orbit = OrbitRail {
        position: vessel_pos.0,
        velocity: vessel_vel.0,
        mu: mu_of_mass(body_mass),
        epoch: time,
    };
    assert_eq!(orbit, expected_orbit);

    // The orbit description pins down the external fit: fitting twice from
    // the stored state vectors yields identical orbit parameters.
    let sv = StateVectors2D {
        position: DVec2::new(rail_unfx(orbit.position.x), rail_unfx(orbit.position.y)),
        velocity: DVec2::new(rail_unfx(orbit.velocity.x), rail_unfx(orbit.velocity.y)),
    };
    let fit_a: CompactOrbit2D = sv.to_compact_orbit(body_mu, rail_unfx(orbit.epoch));
    let fit_b: CompactOrbit2D = sv.to_compact_orbit(body_mu, rail_unfx(orbit.epoch));
    assert_eq!(fit_a, fit_b);
}

#[test]
fn test_writing_to_surface_rails() {
    let body_mass: u64 = 10;

    let vessel_pos = RootSpacePosition(rail_vec(0.0, 11.0));
    let vessel_vel = RootSpaceLinearVelocity(rail_vec(0.0, 0.0));
    let time = rail_fx(1.0 / 64.0);

    let mut vessels = vec![VesselData {
        pos: vessel_pos,
        vel: vessel_vel,
        rail_mode: RailMode::NoRail,
        parent: Some(0),
        contact: true,
    }];
    let parents = vec![ParentData {
        pos: RootSpacePosition(rail_vec(0.0, 0.0)),
        vel: RootSpaceLinearVelocity(rail_vec(0.0, 0.0)),
        mass: body_mass,
    }];

    write_sv_to_rail(&mut vessels, &parents, time);

    let rail = vessels[0].rail_mode;
    let expected_att = SurfaceAttachment { angle: FX_HALF_PI, radius: rail_fx(11.0) };

    assert_eq!(
        rail.as_attachment(),
        Some(expected_att),
        "rail didn't match expected value"
    );
}

/// Builds the tick tree of the three-level environment:
/// - Alpha (radius 1e6)
///     - AlphaRove (surface, pi radians, 1e6 radius)
///     - AlphaSat (circular orbit, 2e6 periapsis, pi mean anomaly)
///     - Beta (circular orbit, 2e5 periapsis, 0 mean anomaly)
///         - BetaRove (surface, 3/2 pi radians, 1e5 radius)
///         - BetaBase (loaded physics vessel)
fn rail_build_forest(
    alphasat_orbit: &Orbit2D,
    beta_orbit: &Orbit2D,
    alpharove_att: SurfaceAttachment,
    betarove_att: SurfaceAttachment,
    betabase_pos: Vec2Fx,
    betabase_vel: Vec2Fx,
    t_old: f64,
    t_new: f64,
) -> Vec<RailNode> {
    let orbit_motion = |o: &Orbit2D| -> TickMotion {
        let old_sv = o.get_state_vectors_at_time(t_old);
        let new_sv = o.get_state_vectors_at_time(t_new);
        TickMotion::Rail {
            old_rel: RelativeStateVectors {
                position: rail_vec_of(old_sv.position),
                velocity: rail_vec_of(old_sv.velocity),
            },
            new_rel: RelativeStateVectors {
                position: rail_vec_of(new_sv.position),
                velocity: rail_vec_of(new_sv.velocity),
            },
        }
    };
    let surface_motion = |att: SurfaceAttachment| -> TickMotion {
        let dummy = RelativeStateVectors {
            position: Vec2Fx { x: 0, y: 0 },
            velocity: Vec2Fx { x: 0, y: 0 },
        };
        convert_rail_to_relative_sv(&RailMode::Surface(att), false, dummy, dummy)
    };
    let stale = RootSpacePosition(Vec2Fx { x: 0, y: 0 });
    let stale_v = RootSpaceLinearVelocity(Vec2Fx { x: 0, y: 0 });

    let alpharove = RailNode {
        motion: surface_motion(alpharove_att),
        pos: stale,
        vel: stale_v,
        children: Vec::new(),
    };
    let alphasat = RailNode {
        motion: orbit_motion(alphasat_orbit),
        pos: stale,
        vel: stale_v,
        children: Vec::new(),
    };
    let betarove = RailNode {
        motion: surface_motion(betarove_att),
        pos: stale,
        vel: stale_v,
        children: Vec::new(),
    };
    let betabase = RailNode {
        motion: TickMotion::Physics,
        pos: RootSpacePosition(betabase_pos),
        vel: RootSpaceLinearVelocity(betabase_vel),
        children: Vec::new(),
    };
    let beta = RailNode {
        motion: orbit_motion(beta_orbit),
        pos: stale,
        vel: stale_v,
        children: vec![betarove, betabase],
    };
    let alpha = RailNode {
        motion: TickMotion::Idle,
        pos: stale,
        vel: stale_v,
        children: vec![alpharove, alphasat, beta],
    };
    vec![alpha]
}

#[test]
fn test_rail_to_sv() {
    const ALPHA_RADIUS: f64 = 1e6;
    const ALPHA_MASS: f64 = 1e20;
    const BETA_RADIUS: f64 = 1e5;
    const DT: f64 = 1.0 / 64.0;

    let alpharove_att = SurfaceAttachment { angle: FX_PI, radius: rail_fx(ALPHA_RADIUS) };
    let alphasat_orbit =
        Orbit2D::new_circular(2e6, std::f64::consts::PI, ALPHA_MASS * GRAVITATIONAL_CONSTANT);
    let beta_orbit = Orbit2D::new_circular(2e5, 0.0, ALPHA_MASS * GRAVITATIONAL_CONSTANT);
    let betarove_att =
        SurfaceAttachment { angle: FX_PI + FX_HALF_PI, radius: rail_fx(BETA_RADIUS) };

    let betabase_pos_0 = rail_vec(beta_orbit.get_periapsis() + BETA_RADIUS, 0.0);
    let betabase_vel_0 = rail_vec_of(beta_orbit.get_velocity_at_time(0.0));

    let mut betabase_pos = betabase_pos_0;
    let mut betabase_vel = betabase_vel_0;

    let dt_fx = rail_fx(DT);

    // One tick.
    let forest = rail_build_forest(
        &alphasat_orbit,
        &beta_orbit,
        alpharove_att,
        betarove_att,
        betabase_pos,
        betabase_vel,
        0.0,
        DT,
    );
    let out = write_rail_to_sv(&forest);
    let alpha_out = &out[0];
    let alpharove_out = &alpha_out.children[0];
    let alphasat_out = &alpha_out.children[1];
    let beta_out = &alpha_out.children[2];
    let betarove_out = &beta_out.children[0];
    let betabase_out = &beta_out.children[1];

    // Rail motions are preserved by the walk.
    assert_eq!(alpharove_out.motion, forest[0].children[0].motion,
        "alpharove attachment should not change");
    assert_eq!(alphasat_out.motion, forest[0].children[1].motion,
        "alphasat orbit should not change");
    assert_eq!(beta_out.motion, forest[0].children[2].motion,
        "beta orbit should not change");
    assert_eq!(betarove_out.motion, forest[0].children[2].children[0].motion,
        "betarove attachment should not change");

    // A surface attachment at pi sits at (-radius, 0), at rest.
    assert_eq!(alpharove_out.pos.0, rail_vec(-ALPHA_RADIUS, 0.0));
    assert_eq!(alpharove_out.vel.0, rail_vec(0.0, 0.0));

    // Orbit rails land exactly on the externally evaluated state.
    let alphasat_expected = alphasat_orbit.get_state_vectors_at_time(DT);
    assert_eq!(alphasat_out.pos.0, rail_vec_of(alphasat_expected.position));
    assert_eq!(alphasat_out.vel.0, rail_vec_of(alphasat_expected.velocity));

    let beta_expected = beta_orbit.get_state_vectors_at_time(DT);
    assert_eq!(beta_out.pos.0, rail_vec_of(beta_expected.position));
    assert_eq!(beta_out.vel.0, rail_vec_of(beta_expected.velocity));

    // The surface-attached rover rides along with beta: same velocity,
    // offset position.
    let betarove_expected_pos = Vec2Fx {
        x: beta_out.pos.0.x,
        y: beta_out.pos.0.y - rail_fx(BETA_RADIUS),
    };
    assert_eq!(betarove_out.pos.0, betarove_expected_pos);
    assert_eq!(betarove_out.vel.0, beta_out.vel.0);

    // The physics-owned base receives exactly its ancestor's velocity
    // change; its position is owned by the physics backend this tick.
    rail_close(betabase_out.vel.0, beta_out.vel.0, 1e-12, "betabase velocity");
    assert_eq!(betabase_out.pos.0, betabase_pos);

    // The external physics step integrates the base.
    betabase_vel = betabase_out.vel.0;
    betabase_pos = Vec2Fx {
        x: betabase_pos.x + rail_mul_fx(betabase_vel.x, dt_fx),
        y: betabase_pos.y + rail_mul_fx(betabase_vel.y, dt_fx),
    };
    let beta_now = beta_orbit.get_state_vectors_at_time(DT);
    rail_close(
        betabase_pos,
        Vec2Fx {
            x: rail_fx(beta_now.position.x + BETA_RADIUS),
            y: rail_fx(beta_now.position.y),
        },
        1e-10,
        "betabase position",
    );

    // Long term: many further ticks of rails plus the emulated physics step.
    let ticks: usize = 1000;
    for k in 1..=ticks {
        let t_old = k as f64 * DT;
        let t_new = (k + 1) as f64 * DT;
        let forest = rail_build_forest(
            &alphasat_orbit,
            &beta_orbit,
            alpharove_att,
            betarove_att,
            betabase_pos,
            betabase_vel,
            t_old,
            t_new,
        );
        let out = write_rail_to_sv(&forest);
        let betabase_out = &out[0].children[2].children[1];
        betabase_vel = betabase_out.vel.0;
        betabase_pos = Vec2Fx {
            x: betabase_pos.x + rail_mul_fx(betabase_vel.x, dt_fx),
            y: betabase_pos.y + rail_mul_fx(betabase_vel.y, dt_fx),
        };
    }
    let t_end = (ticks + 1) as f64 * DT;
    let beta_end = beta_orbit.get_state_vectors_at_time(t_end);
    rail_close(
        betabase_pos,
        Vec2Fx {
            x: rail_fx(beta_end.position.x + BETA_RADIUS),
            y: rail_fx(beta_end.position.y),
        },
        1e-7,
        "betabase long-term position",
    );
    rail_close(betabase_vel, rail_vec_of(beta_end.velocity), 1e-9, "betabase long-term velocity");
}

#[test]
fn orbit_classification_scenario() {
    // A loaded vessel at (0, 12) m with velocity (1, 0) m/s around a parent
    // of mass 10 kg, not in contact, is classified as an orbit, and the
    // fitted orbit evaluated at the epoch reproduces the state vectors.
    let time = 1.0 / 64.0;
    let mut vessels = vec![VesselData {
        pos: RootSpacePosition(rail_vec(0.0, 12.0)),
        vel: RootSpaceLinearVelocity(rail_vec(1.0, 0.0)),
        rail_mode: RailMode::NoRail,
        parent: Some(0),
        contact: false,
    }];
    let parents = vec![ParentData {
        pos: RootSpacePosition(rail_vec(0.0, 0.0)),
        vel: RootSpaceLinearVelocity(rail_vec(0.0, 0.0)),
        mass: 10,
    }];
    write_sv_to_rail(&mut vessels, &parents, rail_fx(time));
    let orbit = vessels[0]
        .rail_mode
        .as_orbit()
        .expect("rail mode should be orbit");
    assert_eq!(orbit.position, rail_vec(0.0, 12.0));
    assert_eq!(orbit.velocity, rail_vec(1.0, 0.0));

    let mu = 10.0 * GRAVITATIONAL_CONSTANT;
    let fitted = StateVectors2D {
        position: DVec2::new(0.0, 12.0),
        velocity: DVec2::new(1.0, 0.0),
    }
    .to_cached_orbit(mu, time);
    let back = fitted.get_state_vectors_at_time(time);
    assert!((back.position.x - 0.0).abs() < 1e-3, "position x: {}", back.position.x);
    assert!((back.position.y - 12.0).abs() < 1e-3, "position y: {}", back.position.y);
    // The orbital-mechanics library represents every planar orbit
    // counterclockwise, so this clockwise state comes back with the velocity
    // mirrored; only its magnitude survives the round trip.
    assert!((back.velocity.length() - 1.0).abs() < 1e-3, "velocity: {}", back.velocity);

    // The counterclockwise twin of the same state reproduces in full.
    let fitted_ccw = StateVectors2D {
        position: DVec2::new(0.0, 12.0),
        velocity: DVec2::new(-1.0, 0.0),
    }
    .to_cached_orbit(mu, time);
    let back = fitted_ccw.get_state_vectors_at_time(time);
    assert!((back.position.x - 0.0).abs() < 1e-3, "ccw position x: {}", back.position.x);
    assert!((back.position.y - 12.0).abs() < 1e-3, "ccw position y: {}", back.position.y);
    assert!((back.velocity.x + 1.0).abs() < 1e-3, "ccw velocity x: {}", back.velocity.x);
    assert!((back.velocity.y - 0.0).abs() < 1e-3, "ccw velocity y: {}", back.velocity.y);
}
