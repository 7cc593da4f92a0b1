//! Newtonian gravity for loaded vessels.
//!
//! Gravity is applied kinematically: each tick, every loaded vessel with a
//! celestial parent receives a velocity increment of magnitude
//! `mu / r^2 * dt` directed from the vessel toward the parent, where `mu` is
//! the parent's standard gravitational parameter and `r` the separation.
//! Degenerate separations are clamped — the squared distance never drops
//! below one square meter, and the acceleration magnitude is capped at
//! [`GRAV_ACC_MAX`] — so a near-coincident pair yields a large bounded pull
//! instead of a division by (near) zero.

use vstd::prelude::*;

use crate::frames::{RootSpacePosition, Vec2Fx};
use crate::fx::{fx_mul, fx_div, lemma_fx_mul_unit_bound, lemma_tdiv_bound, lemma_tdiv_upper, tdiv,
    div_fx, mul_fx, FX_ONE};
use crate::rails::{spec_vec_len, vec_len, RAIL_COORD_MAX};

verus! {

/// Numerator of the gravitational constant: `G = 66743 / 10^15` in SI units.
pub const GRAV_G_NUM: u64 = 66743;

/// Denominator of the gravitational constant.
pub const GRAV_G_DEN: u64 = 1_000_000_000_000_000;

/// Cap on the gravitational acceleration, a fixed-point scalar
/// (about `10^6` meters per second squared); together with the one-square-
/// meter floor on the separation this bounds the pull at degenerate
/// separations.
pub const GRAV_ACC_MAX: i64 = 0x1000_0000_0000;

/// Largest accepted time step, a fixed-point scalar (1024 seconds).
pub const GRAV_DT_MAX: i64 = 0x4_0000_0000;

/// One square meter in the units of a squared fixed-point scalar: `2^48`.
pub const FX_SQ_ONE: u128 = 0x1_0000_0000_0000;

/// The standard gravitational parameter `G * mass`, in whole cubic meters
/// per second squared, rounded down.
pub fn mu_of_mass(mass: u64) -> (r: u64)
    ensures
        r as int == (mass * GRAV_G_NUM) / (GRAV_G_DEN as int),
        r <= mass,
{
    proof {
        assert((mass as int) * (GRAV_G_NUM as int) <= (mass as int) * (GRAV_G_DEN as int))
            by (nonlinear_arith)
            requires
                GRAV_G_NUM <= GRAV_G_DEN,
        ;
        lemma_tdiv_upper((mass as int) * (GRAV_G_NUM as int), GRAV_G_DEN as int, mass as int);
    }
    (((mass as u128) * 66743) / 1_000_000_000_000_000) as u64
}

/// The squared separation in whole square meters, rounded down.
pub open spec fn spec_r2_meters(v: Vec2Fx) -> int {
    ((v.x as int) * (v.x as int) + (v.y as int) * (v.y as int)) / (FX_SQ_ONE as int)
}

/// The gravitational acceleration magnitude `mu / r^2` as a fixed-point
/// scalar, with the squared separation floored at one square meter and the
/// result capped at [`GRAV_ACC_MAX`].
pub open spec fn spec_gravity_accel(v: Vec2Fx, mu: u64) -> int {
    let r2 = if spec_r2_meters(v) >= 1 {
        spec_r2_meters(v)
    } else {
        1
    };
    let a = (mu * FX_ONE) / r2;
    if a > GRAV_ACC_MAX {
        GRAV_ACC_MAX as int
    } else {
        a
    }
}

/// In the non-degenerate range the acceleration is exactly `mu / r^2`:
/// it depends only on the parent's gravitational parameter and the
/// separation — the attracted body's own mass has cancelled out of the
/// kinematic formulation.
pub proof fn lemma_gravity_magnitude(v: Vec2Fx, mu: u64)
    requires
        spec_r2_meters(v) >= 1,
        (mu * FX_ONE) / spec_r2_meters(v) <= GRAV_ACC_MAX,
    ensures
        spec_gravity_accel(v, mu) == (mu * FX_ONE) / spec_r2_meters(v),
{
}

/// The velocity increment a loaded vessel receives this tick: magnitude
/// `accel * dt`, directed from the vessel toward the parent (the negated
/// unit vector of the relative position), and zero at exact coincidence.
pub open spec fn spec_gravity_delta_v(v: Vec2Fx, mu: u64, dt: i64) -> Vec2Fx {
    let len = spec_vec_len(v) as int;
    if len == 0 {
        Vec2Fx { x: 0, y: 0 }
    } else {
        let step = fx_mul(spec_gravity_accel(v, mu), dt as int);
        Vec2Fx {
            x: (-fx_mul(step, fx_div(v.x as int, len))) as i64,
            y: (-fx_mul(step, fx_div(v.y as int, len))) as i64,
        }
    }
}

/// Each component of a vector is bounded in magnitude by the vector's
/// length.
proof fn lemma_component_le_len(v: Vec2Fx)
    requires
        -RAIL_COORD_MAX <= v.x <= RAIL_COORD_MAX,
        -RAIL_COORD_MAX <= v.y <= RAIL_COORD_MAX,
    ensures
        -(spec_vec_len(v) as int) <= v.x <= spec_vec_len(v) as int,
        -(spec_vec_len(v) as int) <= v.y <= spec_vec_len(v) as int,
{
    assert((v.x as int) * (v.x as int) + (v.y as int) * (v.y as int) >= 0) by (nonlinear_arith);
    let n = ((v.x as int) * (v.x as int) + (v.y as int) * (v.y as int)) as nat;
    crate::fx::lemma_sqrt_floor_bounds(n);
    let l = spec_vec_len(v) as int;
    assert(-l <= v.x <= l && -l <= v.y <= l) by (nonlinear_arith)
        requires
            n == (v.x as int) * (v.x as int) + (v.y as int) * (v.y as int),
            n < (l + 1) * (l + 1),
            l >= 0,
    ;
}

/// Computes the gravitational velocity increment for one vessel.
pub fn gravity_delta_v(rel_pos: Vec2Fx, mu: u64, dt: i64) -> (r: Vec2Fx)
    requires
        -RAIL_COORD_MAX <= rel_pos.x <= RAIL_COORD_MAX,
        -RAIL_COORD_MAX <= rel_pos.y <= RAIL_COORD_MAX,
        0 <= dt <= GRAV_DT_MAX,
    ensures
        r == spec_gravity_delta_v(rel_pos, mu, dt),
{
    let len = vec_len(rel_pos);
    if len == 0 {
        Vec2Fx { x: 0, y: 0 }
    } else {
        let xi: i128 = rel_pos.x as i128;
        let yi: i128 = rel_pos.y as i128;
        proof {
            assert(0 <= xi * xi <= 0x1000_0000_0000_0000_0000_0000_0000_0000
                && 0 <= yi * yi <= 0x1000_0000_0000_0000_0000_0000_0000_0000) by (nonlinear_arith)
                requires
                    -0x4000_0000_0000_0000 <= xi <= 0x4000_0000_0000_0000,
                    -0x4000_0000_0000_0000 <= yi <= 0x4000_0000_0000_0000,
            ;
        }
        let sq: u128 = (xi * xi) as u128 + (yi * yi) as u128;
        let r2_raw: u128 = sq / 0x1_0000_0000_0000;
        let r2: u128 = if r2_raw >= 1 {
            r2_raw
        } else {
            1
        };
        let a_wide: u128 = ((mu as u128) * 16777216) / r2;
        let a: i64 = if a_wide > 0x1000_0000_0000 {
            GRAV_ACC_MAX
        } else {
            a_wide as i64
        };
        proof {
            lemma_tdiv_bound((mu * FX_ONE) as int, r2 as int);
            assert(a as int == spec_gravity_accel(rel_pos, mu));
            assert(0 <= a <= GRAV_ACC_MAX);
            assert(0 <= (a as int) * (dt as int) <= 0x4000_0000_0000_0000 * (FX_ONE as int))
                by (nonlinear_arith)
                requires
                    0 <= a <= 0x1000_0000_0000,
                    0 <= dt <= 0x4_0000_0000,
            ;
            lemma_tdiv_upper((a as int) * (dt as int), FX_ONE as int, 0x4000_0000_0000_0000);
        }
        let step: i64 = mul_fx(a, dt);
        proof {
            lemma_component_le_len(rel_pos);
            crate::fx::lemma_fx_div_unit_signed(rel_pos.x as int, len as int);
            crate::fx::lemma_fx_div_unit_signed(rel_pos.y as int, len as int);
        }
        let ux: i64 = div_fx(rel_pos.x, len);
        let uy: i64 = div_fx(rel_pos.y, len);
        proof {
            lemma_fx_mul_unit_bound(ux as int, step as int, step as int);
            lemma_fx_mul_unit_bound(uy as int, step as int, step as int);
            crate::fx::lemma_fx_mul_comm(step as int, ux as int);
            crate::fx::lemma_fx_mul_comm(step as int, uy as int);
        }
        Vec2Fx { x: -mul_fx(step, ux), y: -mul_fx(step, uy) }
    }
}

/// The state of one vessel as seen by the gravity pass.
#[derive(Clone, Copy, Debug, PartialEq, Eq, Structural)]
pub struct VesselData {
    pub pos: RootSpacePosition,
    /// Index of the parent celestial body, if it exists.
    pub parent: Option<usize>,
    /// Whether the vessel is physics-loaded this tick.
    pub loaded: bool,
    /// The gravitational velocity increment applied for this tick.
    pub delta_v: Vec2Fx,
}

/// The state of a candidate parent body for the gravity pass.
#[derive(Clone, Copy, Debug, PartialEq, Eq, Structural)]
pub struct ParentData {
    pub pos: RootSpacePosition,
    /// The parent's mass in whole kilograms.
    pub mass: u64,
}

/// The gravity image of one vessel: a loaded vessel with a valid parent
/// receives the velocity increment of [`spec_gravity_delta_v`] toward that
/// parent; anything else is left unchanged (a vessel with a missing parent
/// is skipped, a non-fatal condition).
pub open spec fn spec_apply_gravity_vessel(
    v: VesselData,
    parents: Seq<ParentData>,
    dt: i64,
) -> VesselData {
    match v.parent {
        Some(pi) => if v.loaded && pi < parents.len() {
            let p = parents[pi as int];
            let rel_pos = crate::frames::spec_vec_sub(v.pos.0, p.pos.0);
            let mu = ((p.mass * GRAV_G_NUM) / (GRAV_G_DEN as int)) as u64;
            VesselData { delta_v: spec_gravity_delta_v(rel_pos, mu, dt), ..v }
        } else {
            v
        },
        None => v,
    }
}

/// Magnitude bounds under which the gravity pass operates.
pub open spec fn gravity_inputs_ok(vessels: Seq<VesselData>, parents: Seq<ParentData>) -> bool {
    &&& forall|i: int|
        0 <= i < vessels.len() ==> crate::frames::vec_within(
            (#[trigger] vessels[i]).pos.0,
            0x2000_0000_0000_0000,
        )
    &&& forall|i: int|
        0 <= i < parents.len() ==> crate::frames::vec_within(
            (#[trigger] parents[i]).pos.0,
            0x2000_0000_0000_0000,
        )
}

/// Applies Newtonian gravity to every loaded vessel with a celestial parent.
pub fn apply_gravity(vessels: &mut Vec<VesselData>, parents: &Vec<ParentData>, dt: i64)
    requires
        gravity_inputs_ok(old(vessels)@, parents@),
        0 <= dt <= GRAV_DT_MAX,
    ensures
        final(vessels)@.len() == old(vessels)@.len(),
        forall|i: int|
            0 <= i < final(vessels)@.len() ==> final(vessels)@[i] == spec_apply_gravity_vessel(
                #[trigger] old(vessels)@[i],
                parents@,
                dt,
            ),
{
    let n = vessels.len();
    let mut i: usize = 0;
    while i < n
        invariant
            n == vessels@.len(),
            vessels@.len() == old(vessels)@.len(),
            i <= n,
            gravity_inputs_ok(old(vessels)@, parents@),
            0 <= dt <= GRAV_DT_MAX,
            forall|j: int|
                0 <= j < i ==> vessels@[j] == spec_apply_gravity_vessel(
                    #[trigger] old(vessels)@[j],
                    parents@,
                    dt,
                ),
            forall|j: int| i <= j < n ==> vessels@[j] == old(vessels)@[j],
        decreases n - i,
    {
        let v = vessels[i];
        let nv = match v.parent {
            Some(pi) => if v.loaded && pi < parents.len() {
                let p = parents[pi];
                let rel_pos = crate::frames::vec_sub(v.pos.0, p.pos.0);
                let mu = mu_of_mass(p.mass);
                VesselData { delta_v: gravity_delta_v(rel_pos, mu, dt), ..v }
            } else {
                v
            },
            None => v,
        };
        vessels.set(i, nv);
        i = i + 1;
    }
}

/// The image of one vessel under force cleanup: unloaded vessels have any
/// previously applied gravitational increment zeroed, so a stale pull never
/// leaks into rail-based propagation.
pub open spec fn spec_unapply_gravity_vessel(v: VesselData) -> VesselData {
    if !v.loaded {
        VesselData { delta_v: Vec2Fx { x: 0, y: 0 }, ..v }
    } else {
        v
    }
}

/// Zeroes the applied gravitational increment of every unloaded vessel.
pub fn unapply_gravity_to_unloaded(vessels: &mut Vec<VesselData>)
    ensures
        final(vessels)@.len() == old(vessels)@.len(),
        forall|i: int|
            0 <= i < final(vessels)@.len() ==> final(vessels)@[i] == spec_unapply_gravity_vessel(
                #[trigger] old(vessels)@[i],
            ),
{
    let n = vessels.len();
    let mut i: usize = 0;
    while i < n
        invariant
            n == vessels@.len(),
            vessels@.len() == old(vessels)@.len(),
            i <= n,
            forall|j: int|
                0 <= j < i ==> vessels@[j] == spec_unapply_gravity_vessel(
                    #[trigger] old(vessels)@[j],
                ),
            forall|j: int| i <= j < n ==> vessels@[j] == old(vessels)@[j],
        decreases n - i,
    {
        let v = vessels[i];
        let nv = if !v.loaded {
            VesselData { delta_v: Vec2Fx { x: 0, y: 0 }, ..v }
        } else {
            v
        };
        vessels.set(i, nv);
        i = i + 1;
    }
}

} // verus!
