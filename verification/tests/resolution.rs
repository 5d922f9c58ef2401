use blend_load::rapier_physics::{
    body_description_to_builder, collider_description_to_builder, resolve_collider,
    resolve_rigid_body, ColliderDescription, RigidBody, RigidBodyDescription, ShapeError,
    ShapeParams, ROTATION_LOCKED_Y, TRANSLATION_LOCKED_X, TRANSLATION_LOCKED_Z,
};
use blend_load::scalars::{IVec3, QuatBits, Transform, Vec3Bits};
use blend_load::world::{EntityRecord, World};

fn bits(x: f32) -> u32 {
    x.to_bits()
}

fn zero_vec3() -> Vec3Bits {
    Vec3Bits { x: bits(0.0), y: bits(0.0), z: bits(0.0) }
}

fn plain_body_description(body_status: u8) -> RigidBodyDescription {
    RigidBodyDescription {
        body_status,
        damping_angular: bits(0.0),
        damping_linear: bits(0.0),
        ccd_enable: false,
        sleep_allow: true,
        velocity_linear: zero_vec3(),
        velocity_angular: zero_vec3(),
        lock_translation: IVec3 { x: 0, y: 0, z: 0 },
        lock_rotation: IVec3 { x: 0, y: 0, z: 0 },
    }
}

fn transform_at(x: f32, y: f32, z: f32) -> Transform {
    Transform {
        translation: Vec3Bits { x: bits(x), y: bits(y), z: bits(z) },
        rotation: QuatBits::identity(),
    }
}

fn box_payload(x: f32, y: f32, z: f32) -> Vec<u8> {
    let mut out: Vec<u8> = Vec::new();
    for v in [x, y, z] {
        out.extend_from_slice(&v.to_bits().to_le_bytes());
    }
    out
}

#[test]
fn dynamic_body_resolves_to_its_pose() {
    // body_type 0 (dynamic), position (1,2,3), zero velocities, CCD off.
    let desc = plain_body_description(0);
    let transform = transform_at(1.0, 2.0, 3.0);
    let comps = resolve_rigid_body(&desc, &transform);
    assert_eq!(comps.body, RigidBody::Dynamic);
    assert_eq!(comps.pose.translation, Vec3Bits { x: bits(1.0), y: bits(2.0), z: bits(3.0) });
    assert!(!comps.ccd_enabled);
    assert_eq!(comps.velocity.linvel, zero_vec3());
    assert_eq!(comps.velocity.angvel, zero_vec3());
    assert_eq!(comps.locked_axes, 0);
}

#[test]
fn body_status_tags_map_to_kinds() {
    let t = transform_at(0.0, 0.0, 0.0);
    let kinds = [
        (0u8, RigidBody::Dynamic),
        (1, RigidBody::Fixed),
        (2, RigidBody::KinematicPositionBased),
        (3, RigidBody::KinematicVelocityBased),
        // unrecognized tags deliberately default to dynamic
        (4, RigidBody::Dynamic),
        (255, RigidBody::Dynamic),
    ];
    for (tag, kind) in kinds {
        let comps = resolve_rigid_body(&plain_body_description(tag), &t);
        assert_eq!(comps.body, kind);
    }
}

#[test]
fn lock_flags_become_a_bitset() {
    let mut desc = plain_body_description(0);
    desc.lock_translation = IVec3 { x: 1, y: 0, z: -7 };
    desc.lock_rotation = IVec3 { x: 0, y: 3, z: 0 };
    let comps = resolve_rigid_body(&desc, &transform_at(0.0, 0.0, 0.0));
    assert_eq!(
        comps.locked_axes,
        TRANSLATION_LOCKED_X | TRANSLATION_LOCKED_Z | ROTATION_LOCKED_Y
    );
    assert_eq!(comps.locked_axes, 21);
}

#[test]
fn damping_and_ccd_copy_through() {
    let mut desc = plain_body_description(1);
    desc.damping_linear = bits(0.75);
    desc.damping_angular = bits(1.5);
    desc.ccd_enable = true;
    let comps = resolve_rigid_body(&desc, &transform_at(0.0, 0.0, 0.0));
    assert_eq!(comps.damping.linear_damping, bits(0.75));
    assert_eq!(comps.damping.angular_damping, bits(1.5));
    assert!(comps.ccd_enabled);
}

#[test]
fn one_pass_resolves_all_bodies_and_a_second_changes_nothing() {
    let n = 5usize;
    let mut w = World::new();
    for i in 0..n {
        let mut e = EntityRecord::new(transform_at(i as f32, 0.0, 0.0));
        e.body_description = Some(plain_body_description(0));
        w.push_entity(e);
    }
    body_description_to_builder(&mut w);
    assert_eq!(w.entities.len(), n);
    for e in &w.entities {
        assert!(e.body_description.is_none());
        assert!(e.body.is_some());
    }
    let before: Vec<_> = w.entities.iter().map(|e| (e.transform, e.body)).collect();
    body_description_to_builder(&mut w);
    assert_eq!(w.entities.len(), n);
    let after: Vec<_> = w.entities.iter().map(|e| (e.transform, e.body)).collect();
    assert_eq!(after, before);
    for e in &w.entities {
        assert!(e.body_description.is_none());
        assert!(e.body.is_some());
    }
}

#[test]
fn box_collider_resolves_to_exact_half_extents() {
    let desc = ColliderDescription::new(
        bits(0.6),
        bits(0.1),
        false,
        bits(1.0),
        zero_vec3(),
        2,
        box_payload(0.5, 1.0, 2.0),
    );
    let comps = resolve_collider(&desc).expect("box collider must resolve");
    assert_eq!(
        comps.shape,
        ShapeParams::Cuboid {
            half_extents: Vec3Bits { x: bits(0.5), y: bits(1.0), z: bits(2.0) },
        }
    );
    assert_eq!(comps.friction, bits(0.6));
    assert_eq!(comps.restitution, bits(0.1));
    assert!(!comps.is_sensor);
    assert_eq!(comps.density, bits(1.0));
}

#[test]
fn unknown_collider_shape_fails_and_resolves_nothing() {
    let desc = ColliderDescription::new(
        bits(0.5),
        bits(0.0),
        false,
        bits(1.0),
        zero_vec3(),
        99,
        box_payload(0.5, 1.0, 2.0),
    );
    assert_eq!(resolve_collider(&desc), Err(ShapeError::UnknownTag));
}

#[test]
fn collider_pass_resolves_boxes_in_place() {
    let mut w = World::new();
    let mut e = EntityRecord::new(transform_at(0.0, 0.0, 0.0));
    e.collider_description = Some(ColliderDescription::new(
        bits(0.6),
        bits(0.1),
        true,
        bits(2.0),
        Vec3Bits { x: bits(0.0), y: bits(0.5), z: bits(0.0) },
        2,
        box_payload(0.5, 1.0, 2.0),
    ));
    w.push_entity(e);
    collider_description_to_builder(&mut w).expect("box collider pass must succeed");
    let resolved = &w.entities[0];
    assert!(resolved.collider_description.is_none());
    let comps = resolved.collider.as_ref().expect("collider must be attached");
    assert_eq!(
        comps.shape,
        ShapeParams::Cuboid {
            half_extents: Vec3Bits { x: bits(0.5), y: bits(1.0), z: bits(2.0) },
        }
    );
    assert!(comps.is_sensor);
    assert_eq!(comps.centroid_translation.y, bits(0.5));
}

#[test]
fn failing_collider_pass_changes_nothing() {
    let mut w = World::new();
    let mut good = EntityRecord::new(transform_at(0.0, 0.0, 0.0));
    good.collider_description = Some(ColliderDescription::new(
        bits(0.5),
        bits(0.0),
        false,
        bits(1.0),
        zero_vec3(),
        0,
        vec![0, 0, 128, 63],
    ));
    let mut bad = EntityRecord::new(transform_at(1.0, 0.0, 0.0));
    bad.collider_description = Some(ColliderDescription::new(
        bits(0.5),
        bits(0.0),
        false,
        bits(1.0),
        zero_vec3(),
        99,
        box_payload(0.5, 1.0, 2.0),
    ));
    w.push_entity(good);
    w.push_entity(bad);
    let r = collider_description_to_builder(&mut w);
    assert_eq!(r, Err(ShapeError::UnknownTag));
    // nothing was committed: both descriptors still pending, nothing resolved
    assert!(w.entities[0].collider_description.is_some());
    assert!(w.entities[1].collider_description.is_some());
    assert!(w.entities[0].collider.is_none());
    assert!(w.entities[1].collider.is_none());
}

#[test]
fn truncated_collider_payload_fails() {
    let desc = ColliderDescription::new(
        bits(0.5),
        bits(0.0),
        false,
        bits(1.0),
        zero_vec3(),
        1,
        vec![0, 0, 128, 63],  // capsule needs 8 bytes, only 4 given
    );
    assert_eq!(resolve_collider(&desc), Err(ShapeError::Truncated));
}
