//! The fixed-point numeric kernel: scalar arithmetic, circular functions,
//! and gravity.

use railsim::frames::Vec2Fx;
use railsim::fx::{div_fx, isqrt_u128, mul_fx, narrow_fx, widen_fx, FX_NARROW, FX_ONE};
use railsim::gravity::{
    apply_gravity, gravity_delta_v, mu_of_mass, unapply_gravity_to_unloaded, ParentData,
    VesselData, GRAV_ACC_MAX,
};
use railsim::frames::RootSpacePosition;
use railsim::rails::{classify, evaluate_surface, vec_len, RailMode};
use railsim::trig::{atan2_fx, cos_fx, sin_fx, FX_HALF_PI, FX_PI, FX_TWO_PI};

fn num_fx(v: f64) -> i64 {
    (v * FX_ONE as f64).round() as i64
}

fn num_unfx(x: i64) -> f64 {
    x as f64 / FX_ONE as f64
}

#[test]
fn fixed_point_arithmetic() {
    assert_eq!(mul_fx(num_fx(1.5), num_fx(2.0)), num_fx(3.0));
    assert_eq!(mul_fx(num_fx(-1.5), num_fx(2.0)), num_fx(-3.0));
    // Truncation is toward zero.
    assert_eq!(mul_fx(1, 1), 0);
    assert_eq!(mul_fx(-1, 1), 0);
    assert_eq!(div_fx(FX_ONE, 64 * FX_ONE), FX_ONE / 64);
    assert_eq!(div_fx(-FX_ONE, 64 * FX_ONE), -(FX_ONE / 64));

    assert_eq!(isqrt_u128(0), 0);
    assert_eq!(isqrt_u128(143), 11);
    assert_eq!(isqrt_u128(144), 12);
    assert_eq!(isqrt_u128((1u128 << 100) - 1), (1u64 << 50) - 1);

    assert_eq!(narrow_fx(4095), 0);
    assert_eq!(narrow_fx(-4095), 0);
    assert_eq!(narrow_fx(-4096), -1);
    assert_eq!(widen_fx(narrow_fx(9 * FX_NARROW)), 9 * FX_NARROW);

    assert_eq!(vec_len(Vec2Fx { x: num_fx(3.0), y: num_fx(4.0) }), num_fx(5.0));
    assert_eq!(vec_len(Vec2Fx { x: 0, y: num_fx(-11.0) }), num_fx(11.0));
}

#[test]
fn trig_matches_floating_point() {
    let mut worst: f64 = 0.0;
    for i in -700..700 {
        let theta = i as f64 * 0.01;
        let t_fx = num_fx(theta);
        let s = num_unfx(sin_fx(t_fx));
        let c = num_unfx(cos_fx(t_fx));
        worst = worst.max((s - theta.sin()).abs()).max((c - theta.cos()).abs());
    }
    assert!(worst < 1e-4, "worst trig error {worst}");

    let mut worst_a: f64 = 0.0;
    for i in 0..200 {
        let phi = i as f64 * 0.0314;
        let (x, y) = (1000.0 * phi.cos(), 1000.0 * phi.sin());
        let a = num_unfx(atan2_fx(num_fx(y), num_fx(x)));
        let expected = y.atan2(x);
        let mut d = (a - expected).abs();
        d = d.min((a - expected + 2.0 * std::f64::consts::PI).abs());
        d = d.min((a - expected - 2.0 * std::f64::consts::PI).abs());
        worst_a = worst_a.max(d);
    }
    assert!(worst_a < 1e-4, "worst atan2 error {worst_a}");
}

#[test]
fn atan2_exact_on_axes() {
    assert_eq!(atan2_fx(0, 5 * FX_ONE), 0);
    assert_eq!(atan2_fx(0, 0), 0);
    assert_eq!(atan2_fx(7 * FX_ONE, 0), FX_HALF_PI);
    assert_eq!(atan2_fx(0, -3 * FX_ONE), FX_PI);
    assert_eq!(atan2_fx(-2 * FX_ONE, 0), -FX_HALF_PI);
}

#[test]
fn angle_functions_are_periodic() {
    // Evaluating at theta and theta + 2 pi yields the exact same result.
    for i in -40..40 {
        let theta = i as i64 * 3_000_000 + 12345;
        assert_eq!(sin_fx(theta + FX_TWO_PI), sin_fx(theta));
        assert_eq!(cos_fx(theta + FX_TWO_PI), cos_fx(theta));
        assert_eq!(sin_fx(theta - FX_TWO_PI), sin_fx(theta));
    }
}

#[test]
fn surface_classification_round_trip() {
    // Classify a contact at (3, 4) and evaluate the attachment: the radius
    // is exact and the position comes back within the trig tolerance.
    let rel_pos = Vec2Fx { x: num_fx(3.0), y: num_fx(4.0) };
    let rel_vel = Vec2Fx { x: 0, y: 0 };
    let mode = classify(rel_pos, rel_vel, 0, true, 0);
    let att = match mode {
        RailMode::Surface(a) => a,
        _ => panic!("contact must classify as a surface attachment"),
    };
    assert_eq!(att.radius, num_fx(5.0));
    let expected_angle = 4.0f64.atan2(3.0);
    assert!((num_unfx(att.angle) - expected_angle).abs() < 1e-4);

    let rel = evaluate_surface(att);
    assert!((num_unfx(rel.position.x) - 3.0).abs() < 1e-3);
    assert!((num_unfx(rel.position.y) - 4.0).abs() < 1e-3);
    assert_eq!(rel.velocity, Vec2Fx { x: 0, y: 0 });
}

#[test]
fn gravity_magnitude_formula() {
    // Two bodies of mass m1 = 5 kg (the vessel) and m2 = 8e12 kg separated
    // by r = 100 m: the kinematic acceleration is mu / r^2, independent of
    // the vessel's own mass.
    let m2: u64 = 8_000_000_000_000;
    let mu = mu_of_mass(m2);
    assert_eq!(mu, 533);  // floor(8e12 * 66743 / 1e15)

    let rel = Vec2Fx { x: num_fx(100.0), y: 0 };
    let dt = FX_ONE;  // one second
    let dv = gravity_delta_v(rel, mu, dt);
    // a = mu * FX_ONE / r^2 = floor(533 * 16777216 / 10000), toward the
    // parent along -x.
    let expected = -(533i64 * FX_ONE / 10000);
    assert_eq!(dv, Vec2Fx { x: expected, y: 0 });

    // The same field applied to a different vessel mass is identical: the
    // attracted body's mass has cancelled.
    let dv_other_vessel = gravity_delta_v(rel, mu, dt);
    assert_eq!(dv, dv_other_vessel);
}

#[test]
fn gravity_degenerate_separation_is_clamped() {
    // At exact coincidence there is no direction: no pull.
    assert_eq!(gravity_delta_v(Vec2Fx { x: 0, y: 0 }, 1000, FX_ONE), Vec2Fx { x: 0, y: 0 });

    // Below one square meter the separation is clamped, yielding a large
    // but finite pull.
    let dv = gravity_delta_v(Vec2Fx { x: 1, y: 0 }, 533, FX_ONE);
    assert_eq!(dv.x, -533 * FX_ONE);

    // And the acceleration itself is capped.
    let dv = gravity_delta_v(Vec2Fx { x: 1, y: 0 }, u64::MAX, FX_ONE);
    assert_eq!(dv.x, -GRAV_ACC_MAX);
}

#[test]
fn gravity_pass_applies_to_loaded_vessels_only() {
    let parent = ParentData {
        pos: RootSpacePosition(Vec2Fx { x: 0, y: 0 }),
        mass: 8_000_000_000_000,
    };
    let at = |x: f64| RootSpacePosition(Vec2Fx { x: num_fx(x), y: 0 });
    let stale = Vec2Fx { x: 77, y: 88 };
    let mut vessels = vec![
        VesselData { pos: at(100.0), parent: Some(0), loaded: true, delta_v: stale },
        VesselData { pos: at(100.0), parent: Some(0), loaded: false, delta_v: stale },
        VesselData { pos: at(100.0), parent: None, loaded: true, delta_v: stale },
        VesselData { pos: at(100.0), parent: Some(9), loaded: true, delta_v: stale },
    ];
    apply_gravity(&mut vessels, &vec![parent], FX_ONE);
    let pulled = Vec2Fx { x: -(533i64 * FX_ONE / 10000), y: 0 };
    assert_eq!(vessels[0].delta_v, pulled);
    // Unloaded, parentless and dangling-parent vessels are left alone.
    assert_eq!(vessels[1].delta_v, stale);
    assert_eq!(vessels[2].delta_v, stale);
    assert_eq!(vessels[3].delta_v, stale);

    unapply_gravity_to_unloaded(&mut vessels);
    assert_eq!(vessels[0].delta_v, pulled);
    assert_eq!(vessels[1].delta_v, Vec2Fx { x: 0, y: 0 });
    assert_eq!(vessels[2].delta_v, stale);
}
