//! Reference-frame conversions and the frame-switch pipeline.

use railsim::camera::SimCameraOffset;
use railsim::frame_sync::{
    apply_root_velocity, post_rapier_frame_switch, pre_rapier_frame_switch, sync_rigid_pos_to_root,
    sync_rigid_vel_to_root, sync_root_to_rigid, update_active_vessel_resource, ActiveVessel,
    WorldBody,
};
use railsim::frames::{
    CameraSpaceTransform, RigidSpaceVelocity, RigidVec2, RootSpaceLinearVelocity,
    RootSpacePosition, SimCameraZoom, Vec2Fx, RIGID_SCALE_ONE,
};
use railsim::fx::{FX_NARROW, FX_ONE};

fn frames_fx(v: f64) -> i64 {
    (v * FX_ONE as f64).round() as i64
}

fn frames_vec(x: f64, y: f64) -> Vec2Fx {
    Vec2Fx { x: frames_fx(x), y: frames_fx(y) }
}

fn frames_rigid(x: f64, y: f64) -> RigidVec2 {
    RigidVec2 { x: (x * FX_NARROW as f64).round() as i32, y: (y * FX_NARROW as f64).round() as i32 }
}

#[test]
fn root_rigid_conversion() {
    let reference_pos = RootSpacePosition(frames_vec(5.0, 9.0));
    let rootspace_pos = RootSpacePosition(frames_vec(-4.0, -3.0));

    let reference_vel = RootSpaceLinearVelocity(frames_vec(5.0, 9.0));
    let rootspace_vel = RootSpaceLinearVelocity(frames_vec(-4.0, -3.0));

    let ang_vel: i32 = 0;

    let rigid = rootspace_pos.to_rigid_space_position(reference_pos);

    assert_eq!(rigid.0, frames_rigid(-9.0, -12.0));
    assert_eq!(rigid.to_root_space_position(reference_pos), rootspace_pos);

    let rigid = rootspace_vel.to_rigid_space_linear_velocity(reference_vel);

    assert_eq!(rigid.0, frames_rigid(-9.0, -12.0));
    assert_eq!(rigid.to_root_space_linear_velocity(reference_vel), rootspace_vel);

    let rigid_full = rigid.to_rigid_space_velocity(ang_vel);

    assert_eq!(
        rigid_full,
        RigidSpaceVelocity { linvel: frames_rigid(-9.0, -12.0), angvel: ang_vel }
    );
    assert_eq!(
        rigid_full.to_root_space_linear_velocity(reference_vel),
        rootspace_vel
    );
}

#[test]
fn round_trip_within_one_rigid_unit() {
    // An offset that does not lie on the rigid grid: the round trip loses at
    // most one rigid-space unit (FX_NARROW root units).
    let origin = RootSpacePosition(Vec2Fx { x: 12345, y: -98765 });
    let p = RootSpacePosition(Vec2Fx { x: 7777777, y: 3333333 });
    let rigid = p.to_rigid_space_position(origin);
    let back = rigid.to_root_space_position(origin);
    assert!((back.0.x - p.0.x).abs() < FX_NARROW);
    assert!((back.0.y - p.0.y).abs() < FX_NARROW);

    // An offset on the rigid grid round-trips exactly.
    let q = RootSpacePosition(Vec2Fx { x: 12345 + 9 * FX_NARROW, y: -98765 - 5 * FX_NARROW });
    let rigid = q.to_rigid_space_position(origin);
    assert_eq!(rigid.to_root_space_position(origin), q);
}

struct TestWorld {
    bodies: Vec<WorldBody>,
    active: Option<ActiveVessel>,
    camera_offset: SimCameraOffset,
    camera_zoom: SimCameraZoom,
}

fn frames_blank_body(id: u64) -> WorldBody {
    WorldBody {
        id,
        parent: None,
        is_celestial: false,
        has_collider: false,
        has_rigid_body: false,
        root_pos: None,
        root_vel: None,
        rigid_tf: None,
        rigid_vel: None,
        transform: None,
        camera_tf: None,
    }
}

/// Runs one fixed tick of the pipeline in the documented order, with the
/// external physics step leaving the rigid state unchanged.
fn frames_run_tick(w: &mut TestWorld, dt: i64) {
    update_active_vessel_resource(&mut w.bodies, &mut w.active);
    sync_root_to_rigid(&mut w.bodies, w.active.as_ref());
    pre_rapier_frame_switch(&mut w.bodies);
    // external physics step: unchanged
    sync_rigid_vel_to_root(&mut w.bodies, w.active.as_ref());
    sync_rigid_pos_to_root(&mut w.bodies, w.active.as_ref());
    post_rapier_frame_switch(&mut w.bodies, &mut w.camera_offset, w.camera_zoom, true);
    apply_root_velocity(&mut w.bodies, dt);
}

fn frames_setup(camera_offset: SimCameraOffset) -> (TestWorld, u64, u64) {
    let body_id = 1u64;
    let vessel_id = 2u64;
    let body = WorldBody {
        id: body_id,
        is_celestial: true,
        has_collider: true,
        has_rigid_body: true,
        root_pos: Some(RootSpacePosition(frames_vec(0.0, 0.0))),
        root_vel: Some(RootSpaceLinearVelocity(frames_vec(0.0, 0.0))),
        rigid_vel: Some(RigidSpaceVelocity { linvel: RigidVec2 { x: 0, y: 0 }, angvel: 0 }),
        transform: Some(railsim::frames::RigidSpaceTransform {
            translation: RigidVec2 { x: 0, y: 0 },
            rotation: 0,
            scale: RIGID_SCALE_ONE,
        }),
        ..frames_blank_body(body_id)
    };

    let vessel_pos = RootSpacePosition(frames_vec(0.5, 1.5));
    let vessel_vel = RootSpaceLinearVelocity(frames_vec(1.0, 0.0));

    let vessel = WorldBody {
        id: vessel_id,
        parent: Some(body_id),
        has_collider: true,
        has_rigid_body: true,
        root_pos: Some(vessel_pos),
        root_vel: Some(vessel_vel),
        rigid_vel: Some(RigidSpaceVelocity { linvel: RigidVec2 { x: 0, y: 0 }, angvel: 0 }),
        transform: Some(railsim::frames::RigidSpaceTransform {
            translation: RigidVec2 { x: 0, y: 0 },
            rotation: 0,
            scale: RIGID_SCALE_ONE,
        }),
        ..frames_blank_body(vessel_id)
    };

    let w = TestWorld {
        bodies: vec![body, vessel],
        active: Some(ActiveVessel {
            entity: vessel_id,
            prev_tick_parent: body_id,
            prev_tick_position: vessel_pos,
            prev_tick_velocity: vessel_vel,
        }),
        camera_offset,
        camera_zoom: SimCameraZoom(FX_ONE),
    };
    (w, body_id, vessel_id)
}

fn frames_body_of(w: &TestWorld, id: u64) -> WorldBody {
    *w.bodies.iter().find(|b| b.id == id).expect("body should exist")
}

#[test]
fn reference_frames() {
    let vessel_pos = RootSpacePosition(frames_vec(0.5, 1.5));
    let vessel_vel = RootSpaceLinearVelocity(frames_vec(1.0, 0.0));
    let (mut w, body_id, vessel_id) = frames_setup(SimCameraOffset::Attached {
        entity: 2,
        last_known_pos: RootSpacePosition(frames_vec(0.0, 0.0)),
        offset: frames_vec(0.0, 0.0),
    });
    let dt = frames_fx(1.0 / 64.0);

    // One tick, stage by stage, so the mid-tick re-centering can be checked.
    update_active_vessel_resource(&mut w.bodies, &mut w.active);
    sync_root_to_rigid(&mut w.bodies, w.active.as_ref());

    // After the pre-switch the body's rigid position is minus the active
    // vessel's position.
    assert_eq!(
        frames_body_of(&w, body_id)
            .rigid_tf
            .expect("body should have rigid state")
            .translation,
        frames_rigid(-0.5, -1.5)
    );

    pre_rapier_frame_switch(&mut w.bodies);
    // external physics step: unchanged
    sync_rigid_vel_to_root(&mut w.bodies, w.active.as_ref());
    sync_rigid_pos_to_root(&mut w.bodies, w.active.as_ref());
    post_rapier_frame_switch(&mut w.bodies, &mut w.camera_offset, w.camera_zoom, true);
    apply_root_velocity(&mut w.bodies, dt);

    let body = frames_body_of(&w, body_id);
    let vessel = frames_body_of(&w, vessel_id);

    // Body assertions: the root position is restored untouched.
    assert_eq!(body.root_pos, Some(RootSpacePosition(frames_vec(0.0, 0.0))));
    assert_eq!(body.root_vel, Some(RootSpaceLinearVelocity(frames_vec(0.0, 0.0))));
    assert_eq!(
        body.rigid_vel,
        Some(RigidSpaceVelocity { linvel: frames_rigid(-1.0, 0.0), angvel: 0 })
    );

    // Vessel assertions.
    assert_eq!(
        vessel.root_pos,
        Some(RootSpacePosition(frames_vec(0.5 + 1.0 / 64.0, 1.5)))
    );
    assert_eq!(vessel.root_vel, Some(vessel_vel));
    assert_eq!(
        vessel.rigid_vel,
        Some(RigidSpaceVelocity { linvel: RigidVec2 { x: 0, y: 0 }, angvel: 0 })
    );

    // Camera offset resolves to the vessel's final position.
    let camera_offset = w
        .camera_offset
        .get_root_position(&w.bodies);
    assert_eq!(
        camera_offset,
        RootSpacePosition(frames_vec(0.5 + 1.0 / 64.0, 1.5)),
        "camera offset didn't match expected value"
    );

    // Camera-space transforms recomputed from the final root positions.
    let body_cam = RootSpacePosition(frames_vec(0.0, 0.0)).to_camera_space_transform(
        0,
        camera_offset,
        w.camera_zoom,
    );
    assert_eq!(
        body_cam,
        CameraSpaceTransform {
            translation: frames_rigid(-(0.5 + 1.0 / 64.0), -1.5),
            rotation: 0,
            scale: RIGID_SCALE_ONE,
        }
    );
    let vessel_cam = vessel
        .root_pos
        .unwrap()
        .to_camera_space_transform(0, camera_offset, w.camera_zoom);
    assert_eq!(
        vessel_cam,
        CameraSpaceTransform {
            translation: RigidVec2 { x: 0, y: 0 },
            rotation: 0,
            scale: RIGID_SCALE_ONE,
        }
    );

    // The active-vessel snapshot was taken at the start of the tick.
    let av = w.active.expect("active vessel should exist");
    assert_eq!(av.entity, vessel_id, "active vessel entity mismatch");
    assert_eq!(av.prev_tick_parent, body_id, "active vessel parent mismatch");
    assert_eq!(av.prev_tick_position, vessel_pos, "active vessel position mismatch");
    assert_eq!(av.prev_tick_velocity, vessel_vel, "active vessel velocity mismatch");
}

#[test]
fn reference_frame_fixed_cam() {
    let cam_position = RootSpacePosition(frames_vec(1.0, 1.0));
    let (mut w, body_id, vessel_id) = frames_setup(SimCameraOffset::Detached(cam_position));
    let dt = frames_fx(1.0 / 64.0);

    frames_run_tick(&mut w, dt);

    let body = frames_body_of(&w, body_id);
    let vessel = frames_body_of(&w, vessel_id);

    assert_eq!(body.root_pos, Some(RootSpacePosition(frames_vec(0.0, 0.0))));
    assert_eq!(body.root_vel, Some(RootSpaceLinearVelocity(frames_vec(0.0, 0.0))));
    assert_eq!(
        body.rigid_vel,
        Some(RigidSpaceVelocity { linvel: frames_rigid(-1.0, 0.0), angvel: 0 })
    );
    assert_eq!(
        vessel.root_pos,
        Some(RootSpacePosition(frames_vec(0.5 + 1.0 / 64.0, 1.5)))
    );
    assert_eq!(
        vessel.root_vel,
        Some(RootSpaceLinearVelocity(frames_vec(1.0, 0.0)))
    );
    assert_eq!(
        vessel.rigid_vel,
        Some(RigidSpaceVelocity { linvel: RigidVec2 { x: 0, y: 0 }, angvel: 0 })
    );

    let camera_offset = w.camera_offset.get_root_position(&w.bodies);
    assert_eq!(camera_offset, cam_position);

    let body_cam = RootSpacePosition(frames_vec(0.0, 0.0)).to_camera_space_transform(
        0,
        camera_offset,
        w.camera_zoom,
    );
    assert_eq!(body_cam.translation, frames_rigid(-1.0, -1.0));
    let vessel_cam = vessel
        .root_pos
        .unwrap()
        .to_camera_space_transform(0, camera_offset, w.camera_zoom);
    assert_eq!(
        vessel_cam.translation,
        frames_rigid(0.5 + 1.0 / 64.0 - 1.0, 1.5 - 1.0)
    );
}
