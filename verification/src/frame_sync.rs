//! The frame-switch pipeline across the tick boundary.
//!
//! Root-space values are authoritative between ticks.  Before the physics
//! backend runs, every entity's rigid-space state is regenerated from its
//! root-space state using the active vessel's previous-tick snapshot as the
//! origin (the current tick's origin does not exist yet).  After the backend
//! runs, the rigid-space output of entities sharing the active vessel's
//! previous-tick parent is converted back to root space with the same
//! snapshot, so no drift accumulates in rigid space.  A render stage then
//! derives camera-space transforms.
//!
//! Every stage takes the whole world — a vector of [`WorldBody`] entries —
//! and rewrites each entry by a per-body function stated exactly in its
//! contract.  A missing active-vessel snapshot makes a stage a no-op, per
//! the missing-optional-context policy.

use vstd::prelude::*;

use crate::camera::{spec_cam_attached_pos, spec_cam_update, spec_camera_root_position,
    SimCameraOffset};
use crate::frames::{
    rigid_sub, spec_narrow_vec, spec_rigid_sub, spec_vec_add, spec_vec_sub, spec_widen_vec,
    vec_in_rigid_range, vec_sub_in_range, vec_within, CameraSpaceTransform, RigidSpaceTransform,
    RigidSpaceVelocity, RigidVec2, RootSpaceLinearVelocity, RootSpacePosition, SimCameraZoom,
    Vec2Fx, RIGID_SCALE_ONE,
};
use crate::fx::{fx_mul, fx_narrow, in_rigid_range, mul_fx, FX_DT_MAX};

verus! {

/// Largest root-space position component the pipeline accepts: `2^61`.
pub const POS_LIMIT: i64 = 0x2000_0000_0000_0000;

/// Largest root-space velocity component the pipeline accepts: `2^50`.
pub const VEL_LIMIT: i64 = 0x4_0000_0000_0000;

/// Largest rigid-space (narrow) component the pipeline accepts: `2^30`.
pub const RIGID_HALF: i32 = 0x3fff_ffff;

/// Headroom a widened rigid scalar can add to a root scalar: `2^43`.
pub const WIDEN_MARGIN: i64 = 0x800_0000_0000;

/// The active vessel: the entity serving as the physics/frame origin, with a
/// snapshot of its parent, root position and root velocity taken at the end
/// of the previous tick.  The snapshot, not the live value, is the origin of
/// this tick's frame switch: the pre-switch runs before the physics backend
/// has produced this tick's values, so the origin is necessarily one tick
/// stale.
#[derive(Clone, Copy, Debug, PartialEq)]
pub struct ActiveVessel {
    pub entity: u64,
    pub prev_tick_position: RootSpacePosition,
    pub prev_tick_velocity: RootSpaceLinearVelocity,
    pub prev_tick_parent: u64,
}

/// The per-entity state the pipeline reads and writes.
#[derive(Clone, Copy, Debug, PartialEq)]
pub struct WorldBody {
    pub id: u64,
    /// The physics parent, if any.
    pub parent: Option<u64>,
    /// Celestial bodies are rail-driven: the post-switch resets their rigid
    /// transform to a centered placeholder instead of feeding it back.
    pub is_celestial: bool,
    /// Whether the physics backend simulates collisions for this entity.
    pub has_collider: bool,
    /// Whether the entity has a physics-backend rigid body at all.
    pub has_rigid_body: bool,
    pub root_pos: Option<RootSpacePosition>,
    pub root_vel: Option<RootSpaceLinearVelocity>,
    /// The rigid-space transform handed to the physics backend.
    pub rigid_tf: Option<RigidSpaceTransform>,
    /// The rigid-space velocity handed to the physics backend.
    pub rigid_vel: Option<RigidSpaceVelocity>,
    /// The backend's working transform (its output after a step).
    pub transform: Option<RigidSpaceTransform>,
    /// The render-only camera-space transform.
    pub camera_tf: Option<CameraSpaceTransform>,
}

/// Magnitude bounds on one body's stored state.
pub open spec fn body_ok(b: WorldBody) -> bool {
    &&& (b.root_pos matches Some(p) ==> vec_within(p.0, POS_LIMIT as int))
    &&& (b.root_vel matches Some(v) ==> vec_within(v.0, VEL_LIMIT as int))
    &&& (b.rigid_tf matches Some(t) ==> rigid_within(t.translation))
    &&& (b.rigid_vel matches Some(v) ==> rigid_within(v.linvel))
    &&& (b.transform matches Some(t) ==> rigid_within(t.translation))
}

/// Magnitude bound on a rigid vector's components.
pub open spec fn rigid_within(v: RigidVec2) -> bool {
    &&& -RIGID_HALF <= v.x <= RIGID_HALF
    &&& -RIGID_HALF <= v.y <= RIGID_HALF
}

/// Magnitude bounds on the whole world.
pub open spec fn world_ok(bodies: Seq<WorldBody>) -> bool {
    forall|i: int| 0 <= i < bodies.len() ==> body_ok(#[trigger] bodies[i])
}

/// Magnitude bounds on the active-vessel snapshot, with margin for widened
/// rigid offsets so the post-switch stays within [`POS_LIMIT`] and
/// [`VEL_LIMIT`].
pub open spec fn active_ok(av: ActiveVessel) -> bool {
    &&& vec_within(av.prev_tick_position.0, POS_LIMIT - WIDEN_MARGIN)
    &&& vec_within(av.prev_tick_velocity.0, VEL_LIMIT - WIDEN_MARGIN)
    &&& vec_within(av.prev_tick_velocity.0, crate::fx::RIGID_RANGE_MAX as int)
}

/// Every body with root state lies within the rigid window around the
/// active vessel's snapshot: the floating origin keeps the physics frame
/// near the active vessel, so the narrowing in the pre-switch stays
/// representable.
pub open spec fn rigid_window_ok(bodies: Seq<WorldBody>, av: ActiveVessel) -> bool {
    forall|i: int|
        0 <= i < bodies.len() ==> {
            let b = #[trigger] bodies[i];
            &&& (b.root_pos matches Some(p) ==> vec_in_rigid_range(
                spec_vec_sub(p.0, av.prev_tick_position.0),
            ))
            &&& (b.root_vel matches Some(v) ==> vec_in_rigid_range(
                spec_vec_sub(v.0, av.prev_tick_velocity.0),
            ))
        }
}

/// The pre-switch image of one body: its rigid transform regenerated from
/// its root position (keeping the rotation it had, with identity scale), and
/// — for colliding bodies — its rigid velocity regenerated from its root
/// velocity (keeping its angular velocity; a missing root velocity counts as
/// zero).
pub open spec fn spec_sync_root_to_rigid_body(b: WorldBody, av: ActiveVessel) -> WorldBody {
    let rot: i64 = match b.rigid_tf {
        Some(t) => t.rotation,
        None => 0,
    };
    let b1 = match b.root_pos {
        Some(p) => WorldBody {
            rigid_tf: Some(
                RigidSpaceTransform {
                    translation: spec_narrow_vec(spec_vec_sub(p.0, av.prev_tick_position.0)),
                    rotation: rot,
                    scale: RIGID_SCALE_ONE,
                },
            ),
            ..b
        },
        None => b,
    };
    if b.has_collider {
        let rv: Vec2Fx = match b.root_vel {
            Some(v) => v.0,
            None => Vec2Fx { x: 0, y: 0 },
        };
        let ang: i32 = match b.rigid_vel {
            Some(v) => v.angvel,
            None => 0,
        };
        WorldBody {
            rigid_vel: Some(
                RigidSpaceVelocity {
                    linvel: spec_narrow_vec(spec_vec_sub(rv, av.prev_tick_velocity.0)),
                    angvel: ang,
                },
            ),
            ..b1
        }
    } else {
        b1
    }
}

/// Pre-switch, first half: regenerates every entity's rigid-space transform
/// and velocity from its root-space state, with the previous-tick snapshot
/// as origin.  With no snapshot, the world is untouched.
pub fn sync_root_to_rigid(bodies: &mut Vec<WorldBody>, active: Option<&ActiveVessel>)
    requires
        world_ok(old(bodies)@),
        (active matches Some(av) ==> active_ok(*av) && rigid_window_ok(old(bodies)@, *av)),
    ensures
        final(bodies)@.len() == old(bodies)@.len(),
        match active {
            Some(av) => forall|i: int|
                0 <= i < final(bodies)@.len() ==> final(bodies)@[i] == spec_sync_root_to_rigid_body(
                    #[trigger] old(bodies)@[i],
                    *av,
                ),
            None => final(bodies)@ == old(bodies)@,
        },
{
    let av = match active {
        Some(av) => av,
        None => {
            return ;
        },
    };
    let n = bodies.len();
    let mut i: usize = 0;
    while i < n
        invariant
            n == bodies@.len(),
            bodies@.len() == old(bodies)@.len(),
            i <= n,
            world_ok(old(bodies)@),
            active_ok(*av),
            rigid_window_ok(old(bodies)@, *av),
            forall|j: int|
                0 <= j < i ==> bodies@[j] == spec_sync_root_to_rigid_body(
                    #[trigger] old(bodies)@[j],
                    *av,
                ),
            forall|j: int| i <= j < n ==> bodies@[j] == old(bodies)@[j],
        decreases n - i,
    {
        let b = bodies[i];
        let rot: i64 = match b.rigid_tf {
            Some(t) => t.rotation,
            None => 0,
        };
        let b1 = match b.root_pos {
            Some(p) => {
                let rp = p.to_rigid_space_position(av.prev_tick_position);
                WorldBody { rigid_tf: Some(rp.to_rigid_space_transform(rot, RIGID_SCALE_ONE)), ..b }
            },
            None => b,
        };
        let b2 = if b.has_collider {
            let rv = match b.root_vel {
                Some(v) => v,
                None => RootSpaceLinearVelocity(Vec2Fx { x: 0, y: 0 }),
            };
            let ang: i32 = match b.rigid_vel {
                Some(v) => v.angvel,
                None => 0,
            };
            let lv = rv.to_rigid_space_linear_velocity(av.prev_tick_velocity);
            WorldBody { rigid_vel: Some(lv.to_rigid_space_velocity(ang)), ..b1 }
        } else {
            b1
        };
        bodies.set(i, b2);
        i = i + 1;
    }
}

/// The post-switch image of one body's root position: entities that share
/// the active vessel's previous-tick parent have their root position
/// regenerated from the physics backend's rigid transform.
pub open spec fn spec_sync_rigid_pos_body(b: WorldBody, av: ActiveVessel) -> WorldBody {
    match (b.parent, b.rigid_tf) {
        (Some(par), Some(t)) => if par == av.prev_tick_parent {
            WorldBody {
                root_pos: Some(
                    RootSpacePosition(
                        spec_vec_add(av.prev_tick_position.0, spec_widen_vec(t.translation)),
                    ),
                ),
                ..b
            }
        } else {
            b
        },
        _ => b,
    }
}

/// Post-switch, position half: converts the backend's rigid positions back
/// into authoritative root positions for entities under the active vessel's
/// previous-tick parent.  With no snapshot, the world is untouched.
pub fn sync_rigid_pos_to_root(bodies: &mut Vec<WorldBody>, active: Option<&ActiveVessel>)
    requires
        world_ok(old(bodies)@),
        (active matches Some(av) ==> active_ok(*av)),
    ensures
        final(bodies)@.len() == old(bodies)@.len(),
        match active {
            Some(av) => forall|i: int|
                0 <= i < final(bodies)@.len() ==> final(bodies)@[i] == spec_sync_rigid_pos_body(
                    #[trigger] old(bodies)@[i],
                    *av,
                ),
            None => final(bodies)@ == old(bodies)@,
        },
        world_ok(final(bodies)@),
{
    let av = match active {
        Some(av) => av,
        None => {
            return ;
        },
    };
    let n = bodies.len();
    let mut i: usize = 0;
    while i < n
        invariant
            n == bodies@.len(),
            bodies@.len() == old(bodies)@.len(),
            i <= n,
            world_ok(old(bodies)@),
            active_ok(*av),
            forall|j: int|
                0 <= j < i ==> bodies@[j] == spec_sync_rigid_pos_body(
                    #[trigger] old(bodies)@[j],
                    *av,
                ) && body_ok(bodies@[j]),
            forall|j: int| i <= j < n ==> bodies@[j] == old(bodies)@[j],
        decreases n - i,
    {
        let b = bodies[i];
        let nb = match (b.parent, b.rigid_tf) {
            (Some(par), Some(t)) => if par == av.prev_tick_parent {
                let np = t.position().to_root_space_position(av.prev_tick_position);
                WorldBody { root_pos: Some(np), ..b }
            } else {
                b
            },
            _ => b,
        };
        bodies.set(i, nb);
        i = i + 1;
    }
    proof {
        assert forall|k: int| 0 <= k < bodies@.len() implies body_ok(#[trigger] bodies@[k]) by {
            assert(bodies@[k] == spec_sync_rigid_pos_body(old(bodies)@[k], *av));
        }
    }
}

/// The post-switch image of one body's root velocity.
pub open spec fn spec_sync_rigid_vel_body(b: WorldBody, av: ActiveVessel) -> WorldBody {
    match (b.parent, b.rigid_vel) {
        (Some(par), Some(v)) => if par == av.prev_tick_parent {
            WorldBody {
                root_vel: Some(
                    RootSpaceLinearVelocity(
                        spec_vec_add(av.prev_tick_velocity.0, spec_widen_vec(v.linvel)),
                    ),
                ),
                ..b
            }
        } else {
            b
        },
        _ => b,
    }
}

/// Post-switch, velocity half: converts the backend's rigid velocities back
/// into authoritative root velocities for entities under the active vessel's
/// previous-tick parent.  With no snapshot, the world is untouched.
pub fn sync_rigid_vel_to_root(bodies: &mut Vec<WorldBody>, active: Option<&ActiveVessel>)
    requires
        world_ok(old(bodies)@),
        (active matches Some(av) ==> active_ok(*av)),
    ensures
        final(bodies)@.len() == old(bodies)@.len(),
        match active {
            Some(av) => forall|i: int|
                0 <= i < final(bodies)@.len() ==> final(bodies)@[i] == spec_sync_rigid_vel_body(
                    #[trigger] old(bodies)@[i],
                    *av,
                ),
            None => final(bodies)@ == old(bodies)@,
        },
        world_ok(final(bodies)@),
{
    let av = match active {
        Some(av) => av,
        None => {
            return ;
        },
    };
    let n = bodies.len();
    let mut i: usize = 0;
    while i < n
        invariant
            n == bodies@.len(),
            bodies@.len() == old(bodies)@.len(),
            i <= n,
            world_ok(old(bodies)@),
            active_ok(*av),
            forall|j: int|
                0 <= j < i ==> bodies@[j] == spec_sync_rigid_vel_body(
                    #[trigger] old(bodies)@[j],
                    *av,
                ) && body_ok(bodies@[j]),
            forall|j: int| i <= j < n ==> bodies@[j] == old(bodies)@[j],
        decreases n - i,
    {
        let b = bodies[i];
        let nb = match (b.parent, b.rigid_vel) {
            (Some(par), Some(v)) => if par == av.prev_tick_parent {
                let nv = v.to_root_space_linear_velocity(av.prev_tick_velocity);
                WorldBody { root_vel: Some(nv), ..b }
            } else {
                b
            },
            _ => b,
        };
        bodies.set(i, nb);
        i = i + 1;
    }
    proof {
        assert forall|k: int| 0 <= k < bodies@.len() implies body_ok(#[trigger] bodies@[k]) by {
            assert(bodies@[k] == spec_sync_rigid_vel_body(old(bodies)@[k], *av));
        }
    }
}

/// The image of one body under root-velocity integration: bodies with a
/// rigid body, a root velocity and a root position advance their position by
/// `velocity * dt`.
pub open spec fn spec_apply_root_velocity_body(b: WorldBody, dt: i64) -> WorldBody {
    match (b.root_vel, b.root_pos) {
        (Some(v), Some(p)) => if b.has_rigid_body {
            WorldBody {
                root_pos: Some(
                    RootSpacePosition(
                        Vec2Fx {
                            x: (p.0.x + fx_mul(v.0.x as int, dt as int)) as i64,
                            y: (p.0.y + fx_mul(v.0.y as int, dt as int)) as i64,
                        },
                    ),
                ),
                ..b
            }
        } else {
            b
        },
        _ => b,
    }
}

/// Advances every rigid body's root position by its root velocity times the
/// timestep.
pub fn apply_root_velocity(bodies: &mut Vec<WorldBody>, dt: i64)
    requires
        world_ok(old(bodies)@),
        0 <= dt <= FX_DT_MAX,
    ensures
        final(bodies)@.len() == old(bodies)@.len(),
        forall|i: int|
            0 <= i < final(bodies)@.len() ==> final(bodies)@[i] == spec_apply_root_velocity_body(
                #[trigger] old(bodies)@[i],
                dt,
            ),
{
    let n = bodies.len();
    let mut i: usize = 0;
    while i < n
        invariant
            n == bodies@.len(),
            bodies@.len() == old(bodies)@.len(),
            i <= n,
            world_ok(old(bodies)@),
            0 <= dt <= FX_DT_MAX,
            forall|j: int|
                0 <= j < i ==> bodies@[j] == spec_apply_root_velocity_body(
                    #[trigger] old(bodies)@[j],
                    dt,
                ),
            forall|j: int| i <= j < n ==> bodies@[j] == old(bodies)@[j],
        decreases n - i,
    {
        let b = bodies[i];
        let nb = match (b.root_vel, b.root_pos) {
            (Some(v), Some(p)) => if b.has_rigid_body {
                proof {
                    assert(-(0x1000_0000_0000_0000 * (crate::fx::FX_ONE as int)) <= (v.0.x as int)
                        * (dt as int) <= 0x1000_0000_0000_0000 * (crate::fx::FX_ONE as int) && -(
                    0x1000_0000_0000_0000 * (crate::fx::FX_ONE as int)) <= (v.0.y as int) * (
                    dt as int) <= 0x1000_0000_0000_0000 * (crate::fx::FX_ONE as int))
                        by (nonlinear_arith)
                        requires
                            -0x4_0000_0000_0000 <= v.0.x <= 0x4_0000_0000_0000,
                            -0x4_0000_0000_0000 <= v.0.y <= 0x4_0000_0000_0000,
                            0 <= dt <= 0x4_0000_0000,
                            crate::fx::FX_ONE == 16777216,
                    ;
                    crate::fx::lemma_tdiv_range(
                        (v.0.x as int) * (dt as int),
                        crate::fx::FX_ONE as int,
                        0x1000_0000_0000_0000,
                    );
                    crate::fx::lemma_tdiv_range(
                        (v.0.y as int) * (dt as int),
                        crate::fx::FX_ONE as int,
                        0x1000_0000_0000_0000,
                    );
                }
                let sx = mul_fx(v.0.x, dt);
                let sy = mul_fx(v.0.y, dt);
                WorldBody {
                    root_pos: Some(
                        RootSpacePosition(Vec2Fx { x: p.0.x + sx, y: p.0.y + sy }),
                    ),
                    ..b
                }
            } else {
                b
            },
            _ => b,
        };
        bodies.set(i, nb);
        i = i + 1;
    }
}

/// The index of the first body with the given id, if any, searching from `i`.
pub open spec fn spec_find_from(bodies: Seq<WorldBody>, id: u64, i: int) -> Option<int>
    decreases bodies.len() - i,
{
    if i < 0 || i >= bodies.len() {
        None
    } else if bodies[i].id == id {
        Some(i)
    } else {
        spec_find_from(bodies, id, i + 1)
    }
}

/// A found index is in range, names a body with the id searched for, and is
/// the first such index.
pub proof fn lemma_find_from_props(bodies: Seq<WorldBody>, id: u64, i: int)
    ensures
        spec_find_from(bodies, id, i) matches Some(k) ==> i <= k < bodies.len() && bodies[k].id
            == id,
    decreases bodies.len() - i,
{
    if 0 <= i < bodies.len() && bodies[i].id != id {
        lemma_find_from_props(bodies, id, i + 1);
    }
}

/// The first body with the given id, if any.
pub open spec fn spec_find_body(bodies: Seq<WorldBody>, id: u64) -> Option<WorldBody> {
    match spec_find_from(bodies, id, 0) {
        Some(k) => Some(bodies[k]),
        None => None,
    }
}

/// Finds the first body with the given id.
pub fn find_body(bodies: &Vec<WorldBody>, id: u64) -> (r: Option<usize>)
    ensures
        match r {
            Some(u) => u < bodies@.len() && spec_find_from(bodies@, id, 0) == Some(u as int),
            None => spec_find_from(bodies@, id, 0) is None,
        },
{
    let n = bodies.len();
    let mut i: usize = 0;
    while i < n
        invariant
            n == bodies@.len(),
            i <= n,
            spec_find_from(bodies@, id, 0) == spec_find_from(bodies@, id, i as int),
        decreases n - i,
    {
        if bodies[i].id == id {
            return Some(i);
        }
        i = i + 1;
    }
    None
}

/// The snapshot and re-centering performed once per tick after rail
/// propagation: the active vessel's current root position, velocity and
/// parent become the previous-tick snapshot for the next frame switch, and —
/// if the active vessel has rigid state — every tracked entity's rigid
/// transform and velocity are re-centered by subtracting the active vessel's
/// own.  If the entity is gone or lacks the required state, nothing changes.
pub open spec fn spec_update_active_vessel(bodies: Seq<WorldBody>, av: ActiveVessel) -> (
    ActiveVessel,
    Seq<WorldBody>,
) {
    match spec_find_body(bodies, av.entity) {
        Some(b) => match (b.root_pos, b.root_vel, b.parent) {
            (Some(p), Some(v), Some(par)) => {
                let av2 = ActiveVessel {
                    entity: av.entity,
                    prev_tick_position: p,
                    prev_tick_velocity: v,
                    prev_tick_parent: par,
                };
                match (b.rigid_tf, b.rigid_vel) {
                    (Some(atf), Some(avel)) => (
                        av2,
                        Seq::new(
                            bodies.len(),
                            |i: int| spec_recenter_body(bodies[i], atf, avel),
                        ),
                    ),
                    _ => (av2, bodies),
                }
            },
            _ => (av, bodies),
        },
        None => (av, bodies),
    }
}

/// The re-centering image of one body: entities with full root state have
/// the active vessel's rigid translation and linear velocity subtracted from
/// their own rigid state.
pub open spec fn spec_recenter_body(
    b: WorldBody,
    atf: RigidSpaceTransform,
    avel: RigidSpaceVelocity,
) -> WorldBody {
    match (b.root_pos, b.root_vel, b.parent) {
        (Some(_), Some(_), Some(_)) => {
            let b1 = match b.rigid_tf {
                Some(t) => WorldBody {
                    rigid_tf: Some(
                        RigidSpaceTransform {
                            translation: spec_rigid_sub(t.translation, atf.translation),
                            rotation: t.rotation,
                            scale: t.scale,
                        },
                    ),
                    ..b
                },
                None => b,
            };
            match b.rigid_vel {
                Some(v) => WorldBody {
                    rigid_vel: Some(
                        RigidSpaceVelocity {
                            linvel: spec_rigid_sub(v.linvel, avel.linvel),
                            angvel: v.angvel,
                        },
                    ),
                    ..b1
                },
                None => b1,
            }
        },
        _ => b,
    }
}

/// Updates the previous-tick snapshot of the active vessel and re-centers
/// the rigid frame on it.  A missing resource or a vessel without the
/// required state is a non-fatal no-op.
pub fn update_active_vessel_resource(
    bodies: &mut Vec<WorldBody>,
    active: &mut Option<ActiveVessel>,
)
    requires
        world_ok(old(bodies)@),
    ensures
        match *old(active) {
            None => *final(active) is None && final(bodies)@ == old(bodies)@,
            Some(av) => *final(active) == Some(spec_update_active_vessel(old(bodies)@, av).0)
                && final(bodies)@ == spec_update_active_vessel(old(bodies)@, av).1,
        },
{
    let av = match *active {
        Some(a) => a,
        None => {
            return ;
        },
    };
    proof {
        lemma_find_from_props(bodies@, av.entity, 0);
    }
    let idx = match find_body(bodies, av.entity) {
        Some(i) => i,
        None => {
            return ;
        },
    };
    let b = bodies[idx];
    let (p, v, par) = match (b.root_pos, b.root_vel, b.parent) {
        (Some(p), Some(v), Some(par)) => (p, v, par),
        _ => {
            return ;
        },
    };
    *active = Some(
        ActiveVessel {
            entity: av.entity,
            prev_tick_position: p,
            prev_tick_velocity: v,
            prev_tick_parent: par,
        },
    );
    let (atf, avel) = match (b.rigid_tf, b.rigid_vel) {
        (Some(t), Some(vv)) => (t, vv),
        _ => {
            return ;
        },
    };
    let n = bodies.len();
    let mut i: usize = 0;
    while i < n
        invariant
            n == bodies@.len(),
            bodies@.len() == old(bodies)@.len(),
            i <= n,
            world_ok(old(bodies)@),
            forall|j: int|
                0 <= j < i ==> bodies@[j] == spec_recenter_body(
                    #[trigger] old(bodies)@[j],
                    atf,
                    avel,
                ),
            forall|j: int| i <= j < n ==> bodies@[j] == old(bodies)@[j],
            rigid_within(atf.translation),
            rigid_within(avel.linvel),
        decreases n - i,
    {
        let c = bodies[i];
        let c1 = match (c.root_pos, c.root_vel, c.parent) {
            (Some(_), Some(_), Some(_)) => {
                let c1 = match c.rigid_tf {
                    Some(t) => WorldBody {
                        rigid_tf: Some(
                            RigidSpaceTransform {
                                translation: rigid_sub(t.translation, atf.translation),
                                rotation: t.rotation,
                                scale: t.scale,
                            },
                        ),
                        ..c
                    },
                    None => c,
                };
                match c.rigid_vel {
                    Some(vv) => WorldBody {
                        rigid_vel: Some(
                            RigidSpaceVelocity {
                                linvel: rigid_sub(vv.linvel, avel.linvel),
                                angvel: vv.angvel,
                            },
                        ),
                        ..c1
                    },
                    None => c1,
                }
            },
            _ => c,
        };
        bodies.set(i, c1);
        i = i + 1;
    }
    proof {
        assert(bodies@ =~= Seq::new(
            old(bodies)@.len(),
            |k: int| spec_recenter_body(old(bodies)@[k], atf, avel),
        ));
    }
}

/// The pre-physics handoff image of one body: the backend's working
/// transform is set from the rigid-space transform.
pub open spec fn spec_pre_switch_body(b: WorldBody) -> WorldBody {
    match (b.rigid_tf, b.transform) {
        (Some(t), Some(_)) => WorldBody { transform: Some(t), ..b },
        _ => b,
    }
}

/// Hands the rigid-space transforms to the physics backend's working slots.
pub fn pre_rapier_frame_switch(bodies: &mut Vec<WorldBody>)
    ensures
        final(bodies)@.len() == old(bodies)@.len(),
        forall|i: int|
            0 <= i < final(bodies)@.len() ==> final(bodies)@[i] == spec_pre_switch_body(
                #[trigger] old(bodies)@[i],
            ),
{
    let n = bodies.len();
    let mut i: usize = 0;
    while i < n
        invariant
            n == bodies@.len(),
            bodies@.len() == old(bodies)@.len(),
            i <= n,
            forall|j: int|
                0 <= j < i ==> bodies@[j] == spec_pre_switch_body(#[trigger] old(bodies)@[j]),
            forall|j: int| i <= j < n ==> bodies@[j] == old(bodies)@[j],
        decreases n - i,
    {
        let b = bodies[i];
        let nb = match (b.rigid_tf, b.transform) {
            (Some(t), Some(_)) => WorldBody { transform: Some(t), ..b },
            _ => b,
        };
        bodies.set(i, nb);
        i = i + 1;
    }
}

/// Whether every body with a root position lies within the camera transform
/// math's representable window for the given reference point and zoom.
pub open spec fn camera_window_ok(
    bodies: Seq<WorldBody>,
    cam_pos: RootSpacePosition,
    zoom: SimCameraZoom,
) -> bool {
    &&& in_rigid_range(zoom.0 as int)
    &&& forall|i: int|
        0 <= i < bodies.len() ==> {
            let b = #[trigger] bodies[i];
            b.root_pos matches Some(p) ==> {
                &&& vec_sub_in_range(p.0, cam_pos.0)
                &&& i64::MIN <= fx_mul(p.0.x - cam_pos.0.x, zoom.0 as int) <= i64::MAX
                &&& i64::MIN <= fx_mul(p.0.y - cam_pos.0.y, zoom.0 as int) <= i64::MAX
                &&& in_rigid_range(fx_mul(p.0.x - cam_pos.0.x, zoom.0 as int))
                &&& in_rigid_range(fx_mul(p.0.y - cam_pos.0.y, zoom.0 as int))
            }
        }
}

/// The post-physics image of one body: the backend's working transform is
/// read back into the rigid slot — except for celestial bodies, whose root
/// state is rail-driven and whose rigid transform is reset to a centered
/// placeholder — and the working slot becomes the render camera transform.
pub open spec fn spec_post_switch_body(
    b: WorldBody,
    cam_pos: RootSpacePosition,
    zoom: SimCameraZoom,
) -> WorldBody {
    match (b.rigid_tf, b.transform, b.root_pos) {
        (Some(_), Some(t), Some(p)) => WorldBody {
            rigid_tf: Some(
                if b.is_celestial {
                    RigidSpaceTransform {
                        translation: RigidVec2 { x: 0, y: 0 },
                        rotation: t.rotation,
                        scale: t.scale,
                    }
                } else {
                    t
                },
            ),
            camera_tf: Some(
                CameraSpaceTransform {
                    translation: RigidVec2 {
                        x: fx_narrow(fx_mul(p.0.x - cam_pos.0.x, zoom.0 as int)) as i32,
                        y: fx_narrow(fx_mul(p.0.y - cam_pos.0.y, zoom.0 as int)) as i32,
                    },
                    rotation: t.rotation,
                    scale: fx_narrow(zoom.0 as int) as i32,
                },
            ),
            ..b
        },
        _ => b,
    }
}

/// Reads the physics backend's output back into the rigid slots and derives
/// every entity's camera-space transform from the active camera's reference
/// point and zoom.  With no active camera, nothing changes.
pub fn post_rapier_frame_switch(
    bodies: &mut Vec<WorldBody>,
    camera_offset: &mut SimCameraOffset,
    camera_zoom: SimCameraZoom,
    camera_active: bool,
)
    requires
        camera_active ==> (*old(camera_offset) matches SimCameraOffset::Attached { offset, .. }
            ==> crate::frames::vec_add_in_range(
            spec_cam_attached_pos(*old(camera_offset), old(bodies)@).0,
            offset,
        )),
        camera_active ==> camera_window_ok(
            old(bodies)@,
            spec_camera_root_position(*old(camera_offset), old(bodies)@),
            camera_zoom,
        ),
    ensures
        final(bodies)@.len() == old(bodies)@.len(),
        camera_active ==> *final(camera_offset) == spec_cam_update(
            *old(camera_offset),
            spec_cam_attached_pos(*old(camera_offset), old(bodies)@),
        ),
        camera_active ==> forall|i: int|
            0 <= i < final(bodies)@.len() ==> final(bodies)@[i] == spec_post_switch_body(
                #[trigger] old(bodies)@[i],
                spec_camera_root_position(*old(camera_offset), old(bodies)@),
                camera_zoom,
            ),
        !camera_active ==> final(bodies)@ == old(bodies)@ && *final(camera_offset) == *old(
            camera_offset,
        ),
{
    if !camera_active {
        return ;
    }
    let cam_pos = camera_offset.get_root_position(bodies);
    let n = bodies.len();
    let mut i: usize = 0;
    while i < n
        invariant
            n == bodies@.len(),
            bodies@.len() == old(bodies)@.len(),
            i <= n,
            cam_pos == spec_camera_root_position(*old(camera_offset), old(bodies)@),
            camera_window_ok(old(bodies)@, cam_pos, camera_zoom),
            forall|j: int|
                0 <= j < i ==> bodies@[j] == spec_post_switch_body(
                    #[trigger] old(bodies)@[j],
                    cam_pos,
                    camera_zoom,
                ),
            forall|j: int| i <= j < n ==> bodies@[j] == old(bodies)@[j],
        decreases n - i,
    {
        let b = bodies[i];
        let nb = match (b.rigid_tf, b.transform, b.root_pos) {
            (Some(_), Some(t), Some(p)) => {
                let new_rigid = if b.is_celestial {
                    RigidSpaceTransform {
                        translation: RigidVec2 { x: 0, y: 0 },
                        rotation: t.rotation,
                        scale: t.scale,
                    }
                } else {
                    t
                };
                let ct = p.to_camera_space_transform(t.rotation, cam_pos, camera_zoom);
                WorldBody { rigid_tf: Some(new_rigid), camera_tf: Some(ct), ..b }
            },
            _ => b,
        };
        bodies.set(i, nb);
        i = i + 1;
    }
}

} // verus!
