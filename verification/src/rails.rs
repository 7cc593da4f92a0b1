//! The per-body rail-state model.
//!
//! A body is either fully physics-owned for the current tick
//! ([`RailMode::NoRail`]), on a cached osculating orbit ([`RailMode::Orbit`]),
//! or frozen at a polar offset from its parent's center
//! ([`RailMode::Surface`]).
//!
//! An orbit description is the data that determines the osculating two-body
//! orbit: the relative state vectors it was fitted from, the parent's
//! standard gravitational parameter, and the elapsed simulation time at the
//! moment of the fit.  Evaluating such a description at a later time is the
//! external orbital-mechanics library's job; the classification itself is
//! pure and verified here.

use vstd::prelude::*;

use crate::frames::Vec2Fx;
use crate::fx::{fx_mul, isqrt_u128, lemma_fx_mul_unit_bound, mul_fx, sqrt_floor, FX_ONE};
use crate::trig::{atan2_fx, cos_fx, sin_fx, spec_atan2_fx, spec_cos_fx, spec_sin_fx};

verus! {

/// Largest coordinate magnitude the rail-state math accepts; keeps squared
/// lengths inside 128 bits.
pub const RAIL_COORD_MAX: i64 = 0x4000_0000_0000_0000;

/// An attachment of a vessel relative to a body's surface.
#[derive(Clone, Copy, Debug, PartialEq, Eq, Structural)]
pub struct SurfaceAttachment {
    /// The angle from the +x axis at which the vessel is landed, in
    /// fixed-point radians.
    pub angle: i64,
    /// The distance from the parent body's center, a root-space scalar.
    pub radius: i64,
}

/// A cached osculating two-body orbit: the relative state vectors the orbit
/// was fitted from, the parent's standard gravitational parameter, and the
/// elapsed time of the fit.
#[derive(Clone, Copy, Debug, PartialEq, Eq, Structural)]
pub struct OrbitRail {
    /// Position relative to the parent at the moment of the fit.
    pub position: Vec2Fx,
    /// Velocity relative to the parent at the moment of the fit.
    pub velocity: Vec2Fx,
    /// The parent's standard gravitational parameter, in whole cubic meters
    /// per second squared.
    pub mu: u64,
    /// The elapsed simulation time of the fit, a fixed-point scalar in
    /// seconds.
    pub epoch: i64,
}

/// How an entity behaves on rails.
#[derive(Clone, Copy, Debug, PartialEq, Eq, Structural)]
pub enum RailMode {
    /// Motion fully owned by the physics backend this tick.
    NoRail,
    /// Motion owned by a cached osculating orbit around the parent.
    Orbit(OrbitRail),
    /// Motion frozen at a fixed polar offset from the parent's center.
    Surface(SurfaceAttachment),
}

impl Default for RailMode {
    /// An unclassified body starts fully physics-owned.
    fn default() -> (r: Self)
        ensures
            r == RailMode::NoRail,
    {
        RailMode::NoRail
    }
}

/// The error of reading a rail mode as the wrong variant.
pub struct RailModeMismatch;

/// The orbit of a rail mode, if any.
pub open spec fn spec_as_orbit(m: RailMode) -> Option<OrbitRail> {
    match m {
        RailMode::Orbit(o) => Some(o),
        _ => None,
    }
}

/// The surface attachment of a rail mode, if any.
pub open spec fn spec_as_attachment(m: RailMode) -> Option<SurfaceAttachment> {
    match m {
        RailMode::Surface(a) => Some(a),
        _ => None,
    }
}

impl RailMode {
    /// Whether this is the [`None`][RailMode::NoRail] variant.
    pub fn is_none(&self) -> (r: bool)
        ensures
            r == (*self == RailMode::NoRail),
    {
        matches!(self, RailMode::NoRail)
    }

    /// Whether this is the [`Orbit`][RailMode::Orbit] variant.
    pub fn is_orbit(&self) -> (r: bool)
        ensures
            r == (spec_as_orbit(*self) is Some),
    {
        matches!(self, RailMode::Orbit(_))
    }

    /// Whether this is the [`Surface`][RailMode::Surface] variant.
    pub fn is_surface(&self) -> (r: bool)
        ensures
            r == (spec_as_attachment(*self) is Some),
    {
        matches!(self, RailMode::Surface(_))
    }

    /// The orbit in this rail, if any.
    pub fn as_orbit(&self) -> (r: Option<OrbitRail>)
        ensures
            r == spec_as_orbit(*self),
    {
        match self {
            RailMode::Orbit(o) => Some(*o),
            _ => None,
        }
    }

    /// The surface attachment in this rail, if any.
    pub fn as_attachment(&self) -> (r: Option<SurfaceAttachment>)
        ensures
            r == spec_as_attachment(*self),
    {
        match self {
            RailMode::Surface(a) => Some(*a),
            _ => None,
        }
    }
}

/// The length of a root-space vector: the floor of the square root of the
/// sum of the squared components (the components carry `FX_ONE` units each,
/// so the result is again a root-space scalar).
pub open spec fn spec_vec_len(v: Vec2Fx) -> nat {
    sqrt_floor(((v.x as int) * (v.x as int) + (v.y as int) * (v.y as int)) as nat)
}

/// The length of a root-space vector.
pub fn vec_len(v: Vec2Fx) -> (r: i64)
    requires
        -RAIL_COORD_MAX <= v.x <= RAIL_COORD_MAX,
        -RAIL_COORD_MAX <= v.y <= RAIL_COORD_MAX,
    ensures
        r as nat == spec_vec_len(v),
        r >= 0,
{
    let xi: i128 = v.x as i128;
    let yi: i128 = v.y as i128;
    proof {
        assert(0 <= xi * xi <= 0x1000_0000_0000_0000_0000_0000_0000_0000
            && 0 <= yi * yi <= 0x1000_0000_0000_0000_0000_0000_0000_0000) by (nonlinear_arith)
            requires
                -0x4000_0000_0000_0000 <= xi <= 0x4000_0000_0000_0000,
                -0x4000_0000_0000_0000 <= yi <= 0x4000_0000_0000_0000,
        ;
    }
    let sq: u128 = (xi * xi) as u128 + (yi * yi) as u128;
    let r = isqrt_u128(sq);
    proof {
        crate::fx::lemma_sqrt_floor_bounds(sq as nat);
        assert(r <= 0x7fff_ffff_ffff_ffff) by (nonlinear_arith)
            requires
                (r as nat) * (r as nat) <= 0x2000_0000_0000_0000_0000_0000_0000_0000nat,
        ;
    }
    r as i64
}

/// The classification of a loaded vessel's state relative to its parent:
/// in contact, it becomes a surface attachment at the current polar offset;
/// otherwise an osculating orbit is fitted from the relative state vectors
/// at the given epoch.
pub open spec fn spec_classify(
    rel_pos: Vec2Fx,
    rel_vel: Vec2Fx,
    mu: u64,
    contact: bool,
    epoch: i64,
) -> RailMode {
    if contact {
        RailMode::Surface(
            SurfaceAttachment {
                angle: spec_atan2_fx(rel_pos.y as int, rel_pos.x as int) as i64,
                radius: spec_vec_len(rel_pos) as i64,
            },
        )
    } else {
        RailMode::Orbit(OrbitRail { position: rel_pos, velocity: rel_vel, mu, epoch })
    }
}

/// Classifies a loaded vessel's relative state.  With contact, the result is
/// a surface attachment whose angle is the vector's `atan2` and whose radius
/// is its length; without contact, an orbit description fitted from exactly
/// the given state vectors, gravitational parameter and epoch.
pub fn classify(rel_pos: Vec2Fx, rel_vel: Vec2Fx, mu: u64, contact: bool, epoch: i64) -> (r:
    RailMode)
    requires
        -RAIL_COORD_MAX <= rel_pos.x <= RAIL_COORD_MAX,
        -RAIL_COORD_MAX <= rel_pos.y <= RAIL_COORD_MAX,
    ensures
        r == spec_classify(rel_pos, rel_vel, mu, contact, epoch),
{
    if contact {
        let angle = atan2_fx(rel_pos.y, rel_pos.x);
        let radius = vec_len(rel_pos);
        RailMode::Surface(SurfaceAttachment { angle, radius })
    } else {
        RailMode::Orbit(OrbitRail { position: rel_pos, velocity: rel_vel, mu, epoch })
    }
}

/// Position and velocity relative to a parent body.
#[derive(Clone, Copy, Debug, PartialEq, Eq, Structural)]
pub struct RelativeStateVectors {
    pub position: Vec2Fx,
    pub velocity: Vec2Fx,
}

/// The relative state of a surface attachment: `radius * (cos a, sin a)`
/// from the parent's center, at rest relative to the parent.
pub open spec fn spec_surface_relative_sv(a: SurfaceAttachment) -> RelativeStateVectors {
    RelativeStateVectors {
        position: Vec2Fx {
            x: fx_mul(spec_cos_fx(a.angle as int), a.radius as int) as i64,
            y: fx_mul(spec_sin_fx(a.angle as int), a.radius as int) as i64,
        },
        velocity: Vec2Fx { x: 0, y: 0 },
    }
}

/// Evaluates a surface attachment: the polar offset from the parent's
/// center, with zero relative velocity.  Independent of time, so evaluating
/// it at two different times gives the same relative state.
pub fn evaluate_surface(a: SurfaceAttachment) -> (r: RelativeStateVectors)
    requires
        a.radius >= 0,
    ensures
        r == spec_surface_relative_sv(a),
        -a.radius <= r.position.x <= a.radius,
        -a.radius <= r.position.y <= a.radius,
{
    let c = cos_fx(a.angle);
    let s = sin_fx(a.angle);
    proof {
        lemma_fx_mul_unit_bound(c as int, a.radius as int, a.radius as int);
        lemma_fx_mul_unit_bound(s as int, a.radius as int, a.radius as int);
    }
    RelativeStateVectors {
        position: Vec2Fx { x: mul_fx(c, a.radius), y: mul_fx(s, a.radius) },
        velocity: Vec2Fx { x: 0, y: 0 },
    }
}

/// A contact straight above the parent's center classifies exactly: the
/// attachment angle is a quarter turn and the radius is the height itself.
pub proof fn lemma_classify_contact_above(
    rel_pos: Vec2Fx,
    rel_vel: Vec2Fx,
    mu: u64,
    epoch: i64,
)
    requires
        rel_pos.x == 0,
        rel_pos.y > 0,
    ensures
        spec_as_attachment(spec_classify(rel_pos, rel_vel, mu, true, epoch)) == Some(
            SurfaceAttachment { angle: crate::trig::FX_HALF_PI, radius: rel_pos.y },
        ),
{
    crate::trig::lemma_atan2_exact_on_axes(rel_pos.y as int, 0);
    let y = rel_pos.y as int;
    assert(0 * 0 == 0 && y * y <= y * y < (y + 1) * (y + 1)) by (nonlinear_arith)
        requires
            y > 0,
    ;
    crate::fx::lemma_sqrt_floor_unique((y * y) as nat, y as nat);
}

/// Periodicity: a surface attachment whose angle is shifted by a full turn
/// evaluates to exactly the same relative state, since the angle functions
/// are exactly periodic in `FX_TWO_PI`.
pub proof fn lemma_surface_eval_periodic(a: SurfaceAttachment)
    requires
        a.angle + crate::trig::FX_TWO_PI <= i64::MAX,
    ensures
        spec_surface_relative_sv(
            SurfaceAttachment { angle: (a.angle + crate::trig::FX_TWO_PI) as i64, radius: a.radius },
        ) == spec_surface_relative_sv(a),
{
    crate::trig::lemma_angle_periodic(a.angle as int);
}

/// Determinism of the fit: classifying twice from identical relative state
/// vectors, gravitational parameter, contact flag and epoch yields identical
/// rail modes — in particular, two orbit fits from the same state are the
/// same orbit description.
pub proof fn lemma_classify_deterministic(
    r1: RailMode,
    r2: RailMode,
    rel_pos: Vec2Fx,
    rel_vel: Vec2Fx,
    mu: u64,
    contact: bool,
    epoch: i64,
)
    requires
        r1 == spec_classify(rel_pos, rel_vel, mu, contact, epoch),
        r2 == spec_classify(rel_pos, rel_vel, mu, contact, epoch),
    ensures
        r1 == r2,
{
}

} // verus!
