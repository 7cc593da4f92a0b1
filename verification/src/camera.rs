//! The simulation camera: an independently-positioned viewpoint, either
//! fixed in root space or attached (with an offset) to a moving entity.
//!
//! The camera's reference point is resolved once per render stage: a
//! detached camera is its own fixed root position; an attached camera reads
//! the live root position of its entity, falling back to the last known
//! position when the entity is gone or has no root position, and remembers
//! what it read for next time.

use vstd::prelude::*;

use crate::frame_sync::{spec_find_body, find_body, WorldBody};
use crate::frames::{spec_vec_add, vec_add, vec_add_in_range, RootSpacePosition, Vec2Fx};

verus! {

/// Marks the entity that renders the simulation.
#[derive(Clone, Copy, Debug)]
pub struct SimCamera;

/// Where the camera's reference point comes from.
#[derive(Clone, Copy, Debug, PartialEq, Eq, Structural)]
pub enum SimCameraOffset {
    /// The camera follows an entity at a fixed root-space offset.
    Attached { entity: u64, last_known_pos: RootSpacePosition, offset: Vec2Fx },
    /// The camera sits at a fixed root-space position.
    Detached(RootSpacePosition),
}

/// The camera position implied by a given position of the attached object;
/// a detached camera ignores the argument.
pub open spec fn spec_cam_pos_with_attached(
    off: SimCameraOffset,
    attached_obj_pos: RootSpacePosition,
) -> RootSpacePosition {
    match off {
        SimCameraOffset::Attached { offset, .. } => RootSpacePosition(
            spec_vec_add(attached_obj_pos.0, offset),
        ),
        SimCameraOffset::Detached(p) => p,
    }
}

/// The camera state after it has seen the attached object at the given
/// position: an attached camera remembers it, a detached one is unchanged.
pub open spec fn spec_cam_update(
    off: SimCameraOffset,
    attached_obj_pos: RootSpacePosition,
) -> SimCameraOffset {
    match off {
        SimCameraOffset::Attached { entity, offset, .. } => SimCameraOffset::Attached {
            entity,
            last_known_pos: attached_obj_pos,
            offset,
        },
        SimCameraOffset::Detached(_) => off,
    }
}

/// The attached object's position as resolved against the world: its live
/// root position if the entity exists and has one, the last known position
/// otherwise.  Meaningless (but defined) for a detached camera.
pub open spec fn spec_cam_attached_pos(
    off: SimCameraOffset,
    bodies: Seq<WorldBody>,
) -> RootSpacePosition {
    match off {
        SimCameraOffset::Attached { entity, last_known_pos, .. } => {
            match spec_find_body(bodies, entity) {
                Some(b) => match b.root_pos {
                    Some(p) => p,
                    None => last_known_pos,
                },
                None => last_known_pos,
            }
        },
        SimCameraOffset::Detached(p) => p,
    }
}

/// The camera's reference point, resolved against the world.
pub open spec fn spec_camera_root_position(
    off: SimCameraOffset,
    bodies: Seq<WorldBody>,
) -> RootSpacePosition {
    spec_cam_pos_with_attached(off, spec_cam_attached_pos(off, bodies))
}

impl SimCameraOffset {
    /// The camera's root position, given the position of the attached
    /// object; an attached camera remembers the position it was given.
    ///
    /// This performs no check that the given position belongs to the entity
    /// the camera is attached to.
    pub fn get_root_position_with_attached_pos(
        &mut self,
        attached_obj_pos: RootSpacePosition,
    ) -> (r: RootSpacePosition)
        requires
            (*old(self) matches SimCameraOffset::Attached { offset, .. } ==> vec_add_in_range(
                attached_obj_pos.0,
                offset,
            )),
        ensures
            r == spec_cam_pos_with_attached(*old(self), attached_obj_pos),
            *final(self) == spec_cam_update(*old(self), attached_obj_pos),
    {
        match *self {
            SimCameraOffset::Attached { entity, offset, .. } => {
                *self = SimCameraOffset::Attached {
                    entity,
                    last_known_pos: attached_obj_pos,
                    offset,
                };
                RootSpacePosition(vec_add(attached_obj_pos.0, offset))
            },
            SimCameraOffset::Detached(p) => p,
        }
    }

    /// The camera's current root position, resolving the attached entity
    /// against the world and falling back to the last known position.
    pub fn get_root_position(&mut self, bodies: &Vec<WorldBody>) -> (r: RootSpacePosition)
        requires
            (*old(self) matches SimCameraOffset::Attached { offset, .. } ==> vec_add_in_range(
                spec_cam_attached_pos(*old(self), bodies@).0,
                offset,
            )),
        ensures
            r == spec_camera_root_position(*old(self), bodies@),
            *final(self) == spec_cam_update(
                *old(self),
                spec_cam_attached_pos(*old(self), bodies@),
            ),
    {
        let (entity, last_known_pos) = match *self {
            SimCameraOffset::Attached { entity, last_known_pos, .. } => (entity, last_known_pos),
            SimCameraOffset::Detached(p) => {
                return p;
            },
        };
        proof {
            crate::frame_sync::lemma_find_from_props(bodies@, entity, 0);
        }
        let attached_obj_pos = match find_body(bodies, entity) {
            Some(k) => match bodies[k].root_pos {
                Some(p) => p,
                None => last_known_pos,
            },
            None => last_known_pos,
        };
        self.get_root_position_with_attached_pos(attached_obj_pos)
    }
}

} // verus!
