//! Reference frames.
//!
//! Root space is the wide, authoritative coordinate frame; rigid space is the
//! narrow frame centered on the active vessel that the physics backend works
//! in; camera space is the render-only frame centered on the viewpoint and
//! scaled by zoom.  Each conversion is stated exactly over the fixed-point
//! spec functions of [`crate::fx`]; see [`lemma_root_rigid_round_trip`] for
//! the bound on the one intentional precision-loss point.

use vstd::prelude::*;

use crate::fx::{
    fx_mul, fx_narrow, fx_widen, in_rigid_range, lemma_narrow_round_trip, mul_fx, narrow_fx,
    widen_fx,
};

verus! {

/// A two-dimensional root-space vector of fixed-point scalars.
#[derive(Clone, Copy, Debug, PartialEq, Eq, Structural)]
pub struct Vec2Fx {
    pub x: i64,
    pub y: i64,
}

/// A two-dimensional rigid-space vector of narrow fixed-point scalars.
#[derive(Clone, Copy, Debug, PartialEq, Eq, Structural)]
pub struct RigidVec2 {
    pub x: i32,
    pub y: i32,
}

/// Coordinates relative to the root of the celestial forest.
///
/// Used for orbital physics and as the source of truth.
#[derive(Clone, Copy, Debug, PartialEq, Eq, Structural)]
pub struct RootSpacePosition(pub Vec2Fx);

/// Linear velocity relative to the root of the celestial forest.
///
/// Used for orbital physics and as the source of truth.
#[derive(Clone, Copy, Debug, PartialEq, Eq, Structural)]
pub struct RootSpaceLinearVelocity(pub Vec2Fx);

/// Coordinates relative to the active vessel.
///
/// Narrow and unscaled; valid only within the current tick.
#[derive(Clone, Copy, Debug, PartialEq, Eq, Structural)]
pub struct RigidSpacePosition(pub RigidVec2);

/// Linear velocity relative to the active vessel.
///
/// Narrow and unscaled; valid only within the current tick.
#[derive(Clone, Copy, Debug, PartialEq, Eq, Structural)]
pub struct RigidSpaceLinearVelocity(pub RigidVec2);

/// The full velocity handed to the physics backend: linear velocity relative
/// to the active vessel plus the body's own angular velocity.
#[derive(Clone, Copy, Debug, PartialEq, Eq, Structural)]
pub struct RigidSpaceVelocity {
    pub linvel: RigidVec2,
    /// Angular velocity, a narrow fixed-point scalar in radians per second.
    pub angvel: i32,
}

/// The transform handed to the physics backend: a rigid-space translation,
/// a rotation angle in fixed-point radians, and a uniform narrow scale.
#[derive(Clone, Copy, Debug, PartialEq, Eq, Structural)]
pub struct RigidSpaceTransform {
    pub translation: RigidVec2,
    /// Rotation angle in fixed-point radians (wide, since angles never
    /// suffer from the distance-magnitude problem).
    pub rotation: i64,
    /// Uniform scale as a narrow fixed-point scalar (`FX_NARROW` is one).
    pub scale: i32,
}

/// Coordinates relative to the camera, narrow and scaled by the camera zoom.
/// Render-only; derived every tick and never fed back.
#[derive(Clone, Copy, Debug, PartialEq, Eq, Structural)]
pub struct CameraSpaceTransform {
    pub translation: RigidVec2,
    pub rotation: i64,
    /// Uniform scale equal to the camera zoom, narrowed.
    pub scale: i32,
}

/// The camera zoom factor, a root-space fixed-point scalar.
#[derive(Clone, Copy, Debug, PartialEq, Eq, Structural)]
pub struct SimCameraZoom(pub i64);

/// One rigid-space unit expressed as a narrow scale: the identity scale.
pub const RIGID_SCALE_ONE: i32 = 4096;

/// Magnitude bound on both components of a vector.
pub open spec fn vec_within(v: Vec2Fx, m: int) -> bool {
    &&& -m <= v.x <= m
    &&& -m <= v.y <= m
}

/// Whether both components of a root-space difference fit in rigid space.
pub open spec fn vec_in_rigid_range(v: Vec2Fx) -> bool {
    in_rigid_range(v.x as int) && in_rigid_range(v.y as int)
}

/// The root-space difference `a - b`, componentwise.
pub open spec fn spec_vec_sub(a: Vec2Fx, b: Vec2Fx) -> Vec2Fx {
    Vec2Fx { x: (a.x - b.x) as i64, y: (a.y - b.y) as i64 }
}

/// Whether `a - b` can be formed without leaving the scalar range.
pub open spec fn vec_sub_in_range(a: Vec2Fx, b: Vec2Fx) -> bool {
    &&& i64::MIN <= a.x - b.x <= i64::MAX
    &&& i64::MIN <= a.y - b.y <= i64::MAX
}

/// The root-space sum `a + b`, componentwise.
pub open spec fn spec_vec_add(a: Vec2Fx, b: Vec2Fx) -> Vec2Fx {
    Vec2Fx { x: (a.x + b.x) as i64, y: (a.y + b.y) as i64 }
}

/// Whether `a + b` can be formed without leaving the scalar range.
pub open spec fn vec_add_in_range(a: Vec2Fx, b: Vec2Fx) -> bool {
    &&& i64::MIN <= a.x + b.x <= i64::MAX
    &&& i64::MIN <= a.y + b.y <= i64::MAX
}

/// Subtracts two root-space vectors componentwise.
pub fn vec_sub(a: Vec2Fx, b: Vec2Fx) -> (r: Vec2Fx)
    requires
        vec_sub_in_range(a, b),
    ensures
        r == spec_vec_sub(a, b),
{
    Vec2Fx { x: a.x - b.x, y: a.y - b.y }
}

/// Adds two root-space vectors componentwise.
pub fn vec_add(a: Vec2Fx, b: Vec2Fx) -> (r: Vec2Fx)
    requires
        vec_add_in_range(a, b),
    ensures
        r == spec_vec_add(a, b),
{
    Vec2Fx { x: a.x + b.x, y: a.y + b.y }
}

/// The rigid-space difference `a - b`, componentwise.
pub open spec fn spec_rigid_sub(a: RigidVec2, b: RigidVec2) -> RigidVec2 {
    RigidVec2 { x: (a.x - b.x) as i32, y: (a.y - b.y) as i32 }
}

/// Subtracts two rigid-space vectors componentwise.
pub fn rigid_sub(a: RigidVec2, b: RigidVec2) -> (r: RigidVec2)
    requires
        i32::MIN <= a.x - b.x <= i32::MAX,
        i32::MIN <= a.y - b.y <= i32::MAX,
    ensures
        r == spec_rigid_sub(a, b),
{
    RigidVec2 { x: a.x - b.x, y: a.y - b.y }
}

/// The rigid-space image of the root-space difference `d`: both components
/// narrowed onto the rigid grid.
pub open spec fn spec_narrow_vec(d: Vec2Fx) -> RigidVec2 {
    RigidVec2 { x: fx_narrow(d.x as int) as i32, y: fx_narrow(d.y as int) as i32 }
}

/// The root-space image of a rigid-space vector: both components widened;
/// exact.
pub open spec fn spec_widen_vec(v: RigidVec2) -> Vec2Fx {
    Vec2Fx { x: fx_widen(v.x as int) as i64, y: fx_widen(v.y as int) as i64 }
}

impl RootSpacePosition {
    /// Converts to rigid space by subtracting the active vessel's
    /// previous-tick root position and narrowing.
    pub fn to_rigid_space_position(self, active_vessel_pos: RootSpacePosition) -> (r:
        RigidSpacePosition)
        requires
            vec_sub_in_range(self.0, active_vessel_pos.0),
            vec_in_rigid_range(spec_vec_sub(self.0, active_vessel_pos.0)),
        ensures
            r.0 == spec_narrow_vec(spec_vec_sub(self.0, active_vessel_pos.0)),
    {
        let d = vec_sub(self.0, active_vessel_pos.0);
        RigidSpacePosition(RigidVec2 { x: narrow_fx(d.x), y: narrow_fx(d.y) })
    }

    /// Derives the render transform: the offset from the camera's reference
    /// point, scaled by the zoom factor and narrowed, with the given rotation
    /// and a uniform scale equal to the zoom.
    pub fn to_camera_space_transform(
        self,
        rotation: i64,
        camera_offset: RootSpacePosition,
        camera_zoom: SimCameraZoom,
    ) -> (r: CameraSpaceTransform)
        requires
            vec_sub_in_range(self.0, camera_offset.0),
            i64::MIN <= fx_mul(self.0.x - camera_offset.0.x, camera_zoom.0 as int) <= i64::MAX,
            i64::MIN <= fx_mul(self.0.y - camera_offset.0.y, camera_zoom.0 as int) <= i64::MAX,
            in_rigid_range(fx_mul(self.0.x - camera_offset.0.x, camera_zoom.0 as int)),
            in_rigid_range(fx_mul(self.0.y - camera_offset.0.y, camera_zoom.0 as int)),
            in_rigid_range(camera_zoom.0 as int),
        ensures
            r.translation.x as int == fx_narrow(
                fx_mul(self.0.x - camera_offset.0.x, camera_zoom.0 as int),
            ),
            r.translation.y as int == fx_narrow(
                fx_mul(self.0.y - camera_offset.0.y, camera_zoom.0 as int),
            ),
            r.rotation == rotation,
            r.scale as int == fx_narrow(camera_zoom.0 as int),
    {
        let d = vec_sub(self.0, camera_offset.0);
        let sx = mul_fx(d.x, camera_zoom.0);
        let sy = mul_fx(d.y, camera_zoom.0);
        CameraSpaceTransform {
            translation: RigidVec2 { x: narrow_fx(sx), y: narrow_fx(sy) },
            rotation,
            scale: narrow_fx(camera_zoom.0),
        }
    }
}

impl RootSpaceLinearVelocity {
    /// Converts to rigid space by subtracting the active vessel's
    /// previous-tick root velocity and narrowing.  Velocity conversions never
    /// involve a positional origin.
    pub fn to_rigid_space_linear_velocity(self, active_vessel_vel: RootSpaceLinearVelocity) -> (r:
        RigidSpaceLinearVelocity)
        requires
            vec_sub_in_range(self.0, active_vessel_vel.0),
            vec_in_rigid_range(spec_vec_sub(self.0, active_vessel_vel.0)),
        ensures
            r.0 == spec_narrow_vec(spec_vec_sub(self.0, active_vessel_vel.0)),
    {
        let d = vec_sub(self.0, active_vessel_vel.0);
        RigidSpaceLinearVelocity(RigidVec2 { x: narrow_fx(d.x), y: narrow_fx(d.y) })
    }
}

impl RigidSpacePosition {
    /// Converts back to root space by widening and adding the active
    /// vessel's previous-tick root position; the widening itself is exact.
    pub fn to_root_space_position(&self, active_vessel_pos: RootSpacePosition) -> (r:
        RootSpacePosition)
        requires
            vec_add_in_range(active_vessel_pos.0, spec_widen_vec(self.0)),
        ensures
            r.0 == spec_vec_add(active_vessel_pos.0, spec_widen_vec(self.0)),
    {
        let w = Vec2Fx { x: widen_fx(self.0.x), y: widen_fx(self.0.y) };
        RootSpacePosition(vec_add(active_vessel_pos.0, w))
    }

    /// Packs the position into a physics-backend transform with the given
    /// rotation and scale.
    pub fn to_rigid_space_transform(&self, rotation: i64, scale: i32) -> (r: RigidSpaceTransform)
        ensures
            r.translation == self.0,
            r.rotation == rotation,
            r.scale == scale,
    {
        RigidSpaceTransform { translation: self.0, rotation, scale }
    }
}

impl RigidSpaceTransform {
    /// The translation component, as a rigid-space position.
    pub fn position(&self) -> (r: RigidSpacePosition)
        ensures
            r.0 == self.translation,
    {
        RigidSpacePosition(self.translation)
    }
}

impl RigidSpaceLinearVelocity {
    /// Packs the linear velocity together with an angular velocity.
    pub fn to_rigid_space_velocity(self, angvel: i32) -> (r: RigidSpaceVelocity)
        ensures
            r.linvel == self.0,
            r.angvel == angvel,
    {
        RigidSpaceVelocity { linvel: self.0, angvel }
    }

    /// Converts back to root space by widening and adding the active
    /// vessel's previous-tick root velocity.
    pub fn to_root_space_linear_velocity(self, active_vessel_vel: RootSpaceLinearVelocity) -> (r:
        RootSpaceLinearVelocity)
        requires
            vec_add_in_range(active_vessel_vel.0, spec_widen_vec(self.0)),
        ensures
            r.0 == spec_vec_add(active_vessel_vel.0, spec_widen_vec(self.0)),
    {
        let w = Vec2Fx { x: widen_fx(self.0.x), y: widen_fx(self.0.y) };
        RootSpaceLinearVelocity(vec_add(active_vessel_vel.0, w))
    }
}

impl RigidSpaceVelocity {
    /// Converts the linear part back to root space, discarding the angular
    /// velocity (which has no root-space counterpart).
    pub fn to_root_space_linear_velocity(self, active_vessel_vel: RootSpaceLinearVelocity) -> (r:
        RootSpaceLinearVelocity)
        requires
            vec_add_in_range(active_vessel_vel.0, spec_widen_vec(self.linvel)),
        ensures
            r.0 == spec_vec_add(active_vessel_vel.0, spec_widen_vec(self.linvel)),
    {
        RigidSpaceLinearVelocity(self.linvel).to_root_space_linear_velocity(active_vessel_vel)
    }
}

/// Round trip: converting a root position to rigid space around an origin and
/// back recovers the position to within one rigid-space unit per component,
/// and exactly when the offset from the origin lies on the rigid grid.  The
/// identical statement holds for velocities, which share these functions.
pub proof fn lemma_root_rigid_round_trip(p: int, o: int)
    ensures
        -crate::fx::FX_NARROW < o + fx_widen(fx_narrow(p - o)) - p < crate::fx::FX_NARROW,
        (p - o) % (crate::fx::FX_NARROW as int) == 0 ==> o + fx_widen(fx_narrow(p - o)) == p,
{
    lemma_narrow_round_trip(p - o);
}

} // verus!
