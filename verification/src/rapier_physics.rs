//! Rigid-body and collider descriptors and their resolution into native
//! simulation components.
//!
//! Scene deserialization attaches a `RigidBodyDescription` or a
//! `ColliderDescription` to an entity; the resolution pass replaces each,
//! exactly once, with the component set the physics engine consumes. The
//! descriptors keep enums as small integers and shapes as tagged byte
//! payloads, because that is how the authoring exporter writes them; the
//! resolved components are proper sum types.

use crate::scalars::{IVec3, Transform, Vec3Bits};
use crate::words::{lemma_word_at_written, push_word, spec_word_at, word_at};
use crate::world::{EntityRecord, World};
use vstd::bytes::{lemma_auto_spec_u32_to_from_le_bytes, spec_u32_to_le_bytes};
use vstd::prelude::*;

verus! {

// ---------------------------------------------------------------------------
// Shape payloads
// ---------------------------------------------------------------------------
/// Why a tagged shape payload was rejected.
#[derive(Clone, Copy, PartialEq, Eq, Structural, Debug)]
pub enum ShapeError {
    /// The payload has fewer bytes than its tag calls for.
    Truncated,
    /// The tag names no shape this simulation can represent. This is an
    /// authoring-contract violation, never recovered from with a default
    /// shape.
    UnknownTag,
}

/// Decoded collision-shape parameters. Scalars are raw IEEE-754 bits.
#[derive(Clone, Copy, PartialEq, Eq, Structural, Debug)]
pub enum ShapeParams {
    /// Tag 0: a sphere of the given radius.
    Sphere { radius: u32 },
    /// Tag 1: a capsule along the local Z axis, spanning
    /// `[-half_height, +half_height]`, capped with the given radius.
    Capsule { half_height: u32, radius: u32 },
    /// Tag 2: a box with the given half-extents.
    Cuboid { half_extents: Vec3Bits },
}

/// What decoding a tagged payload yields: sphere from 4 bytes, capsule from
/// 8, box from 12 (little-endian scalars, extra bytes ignored), a truncation
/// error when the payload is shorter, and a fatal tag error otherwise.
pub open spec fn spec_decode_shape(tag: u8, p: Seq<u8>) -> Result<ShapeParams, ShapeError> {
    if tag == 0 {
        if p.len() < 4 {
            Err(ShapeError::Truncated)
        } else {
            Ok(ShapeParams::Sphere { radius: spec_word_at(p, 0) })
        }
    } else if tag == 1 {
        if p.len() < 8 {
            Err(ShapeError::Truncated)
        } else {
            Ok(
                ShapeParams::Capsule {
                    half_height: spec_word_at(p, 0),
                    radius: spec_word_at(p, 4),
                },
            )
        }
    } else if tag == 2 {
        if p.len() < 12 {
            Err(ShapeError::Truncated)
        } else {
            Ok(
                ShapeParams::Cuboid {
                    half_extents: Vec3Bits {
                        x: spec_word_at(p, 0),
                        y: spec_word_at(p, 4),
                        z: spec_word_at(p, 8),
                    },
                },
            )
        }
    } else {
        Err(ShapeError::UnknownTag)
    }
}

/// Decodes a tagged shape payload. Succeeds exactly when the tag is known
/// (0, 1 or 2) and the payload is long enough for it; an unknown tag is a
/// data-integrity violation and never falls back to a default shape.
pub fn decode_shape(tag: u8, payload: &[u8]) -> (r: Result<ShapeParams, ShapeError>)
    ensures
        r == spec_decode_shape(tag, payload@),
{
    if tag == 0 {
        if payload.len() < 4 {
            Err(ShapeError::Truncated)
        } else {
            Ok(ShapeParams::Sphere { radius: word_at(payload, 0) })
        }
    } else if tag == 1 {
        if payload.len() < 8 {
            Err(ShapeError::Truncated)
        } else {
            Ok(
                ShapeParams::Capsule {
                    half_height: word_at(payload, 0),
                    radius: word_at(payload, 4),
                },
            )
        }
    } else if tag == 2 {
        if payload.len() < 12 {
            Err(ShapeError::Truncated)
        } else {
            Ok(
                ShapeParams::Cuboid {
                    half_extents: Vec3Bits {
                        x: word_at(payload, 0),
                        y: word_at(payload, 4),
                        z: word_at(payload, 8),
                    },
                },
            )
        }
    } else {
        Err(ShapeError::UnknownTag)
    }
}

/// The tag under which `encode_shape` writes these parameters.
pub open spec fn spec_shape_tag(p: ShapeParams) -> u8 {
    match p {
        ShapeParams::Sphere { .. } => 0,
        ShapeParams::Capsule { .. } => 1,
        ShapeParams::Cuboid { .. } => 2,
    }
}

/// The exact payload bytes `encode_shape` writes for these parameters.
pub open spec fn spec_shape_payload(p: ShapeParams) -> Seq<u8> {
    match p {
        ShapeParams::Sphere { radius } => spec_u32_to_le_bytes(radius),
        ShapeParams::Capsule { half_height, radius } => spec_u32_to_le_bytes(half_height)
            + spec_u32_to_le_bytes(radius),
        ShapeParams::Cuboid { half_extents } => spec_u32_to_le_bytes(half_extents.x)
            + spec_u32_to_le_bytes(half_extents.y) + spec_u32_to_le_bytes(half_extents.z),
    }
}

/// Encodes shape parameters into the tagged payload form the descriptors
/// carry: the tag plus exactly the bytes that tag calls for.
pub fn encode_shape(p: &ShapeParams) -> (r: (u8, Vec<u8>))
    ensures
        r.0 == spec_shape_tag(*p),
        r.1@ == spec_shape_payload(*p),
{
    let mut bytes: Vec<u8> = Vec::new();
    match p {
        ShapeParams::Sphere { radius } => {
            push_word(&mut bytes, *radius);
            proof {
                assert(bytes@ =~= spec_shape_payload(*p));
            }
            (0, bytes)
        },
        ShapeParams::Capsule { half_height, radius } => {
            push_word(&mut bytes, *half_height);
            push_word(&mut bytes, *radius);
            proof {
                assert(bytes@ =~= spec_shape_payload(*p));
            }
            (1, bytes)
        },
        ShapeParams::Cuboid { half_extents } => {
            push_word(&mut bytes, half_extents.x);
            push_word(&mut bytes, half_extents.y);
            push_word(&mut bytes, half_extents.z);
            proof {
                assert(bytes@ =~= spec_shape_payload(*p));
            }
            (2, bytes)
        },
    }
}

/// For every shape, a payload of exactly the expected byte length decodes
/// back to the parameters that were encoded, under the tag that was written.
pub proof fn lemma_shape_round_trip(p: ShapeParams)
    ensures
        spec_shape_payload(p).len() == (match p {
            ShapeParams::Sphere { .. } => 4int,
            ShapeParams::Capsule { .. } => 8int,
            ShapeParams::Cuboid { .. } => 12int,
        }),
        spec_decode_shape(spec_shape_tag(p), spec_shape_payload(p)) == Ok::<
            ShapeParams,
            ShapeError,
        >(p),
{
    lemma_auto_spec_u32_to_from_le_bytes();
    let s = spec_shape_payload(p);
    match p {
        ShapeParams::Sphere { radius } => {
            assert(spec_u32_to_le_bytes(radius).len() == 4);
            assert(s.subrange(0, 4) =~= spec_u32_to_le_bytes(radius));
            lemma_word_at_written(s, 0, radius);
        },
        ShapeParams::Capsule { half_height, radius } => {
            assert(spec_u32_to_le_bytes(half_height).len() == 4);
            assert(spec_u32_to_le_bytes(radius).len() == 4);
            assert(s.subrange(0, 4) =~= spec_u32_to_le_bytes(half_height));
            assert(s.subrange(4, 8) =~= spec_u32_to_le_bytes(radius));
            lemma_word_at_written(s, 0, half_height);
            lemma_word_at_written(s, 4, radius);
        },
        ShapeParams::Cuboid { half_extents } => {
            assert(spec_u32_to_le_bytes(half_extents.x).len() == 4);
            assert(spec_u32_to_le_bytes(half_extents.y).len() == 4);
            assert(spec_u32_to_le_bytes(half_extents.z).len() == 4);
            assert(s.subrange(0, 4) =~= spec_u32_to_le_bytes(half_extents.x));
            assert(s.subrange(4, 8) =~= spec_u32_to_le_bytes(half_extents.y));
            assert(s.subrange(8, 12) =~= spec_u32_to_le_bytes(half_extents.z));
            lemma_word_at_written(s, 0, half_extents.x);
            lemma_word_at_written(s, 4, half_extents.y);
            lemma_word_at_written(s, 8, half_extents.z);
        },
    }
}

// ---------------------------------------------------------------------------
// Rigid bodies
// ---------------------------------------------------------------------------
/// The four ways the simulation can drive a body.
#[derive(Clone, Copy, PartialEq, Eq, Structural, Debug)]
pub enum RigidBody {
    Dynamic,
    Fixed,
    KinematicPositionBased,
    KinematicVelocityBased,
}

/// Transient component describing a rigid body to create. Present only until
/// the resolution pass consumes it.
#[derive(Clone, Copy, PartialEq, Eq, Structural, Debug)]
pub struct RigidBodyDescription {
    /// Body kind as the exporter writes it: 0 dynamic, 1 fixed, 2 kinematic
    /// position-based, 3 kinematic velocity-based. Any other value resolves,
    /// deliberately permissively, to dynamic.
    pub body_status: u8,
    /// Rotational damping factor (IEEE-754 bits).
    pub damping_angular: u32,
    /// Linear damping factor (IEEE-754 bits).
    pub damping_linear: u32,
    /// Enable continuous collision detection for this body.
    pub ccd_enable: bool,
    /// Allow the engine to sleep the body at low velocity.
    pub sleep_allow: bool,
    /// Initial linear velocity (IEEE-754 bits per component).
    pub velocity_linear: Vec3Bits,
    /// Initial angular velocity (IEEE-754 bits per component).
    pub velocity_angular: Vec3Bits,
    /// Per-axis translation locks; an axis is locked when non-zero.
    pub lock_translation: IVec3,
    /// Per-axis rotation locks; an axis is locked when non-zero.
    pub lock_rotation: IVec3,
}

impl Default for RigidBodyDescription {
    /// A dynamic body at rest: zero bits encode 0.0 everywhere, no locks,
    /// CCD off, sleeping allowed.
    fn default() -> (r: Self)
        ensures
            r == (RigidBodyDescription {
                body_status: 0,
                damping_angular: 0,
                damping_linear: 0,
                ccd_enable: false,
                sleep_allow: true,
                velocity_linear: Vec3Bits { x: 0, y: 0, z: 0 },
                velocity_angular: Vec3Bits { x: 0, y: 0, z: 0 },
                lock_translation: IVec3 { x: 0, y: 0, z: 0 },
                lock_rotation: IVec3 { x: 0, y: 0, z: 0 },
            }),
    {
        RigidBodyDescription {
            body_status: 0,
            damping_angular: 0,
            damping_linear: 0,
            ccd_enable: false,
            sleep_allow: true,
            velocity_linear: Vec3Bits { x: 0, y: 0, z: 0 },
            velocity_angular: Vec3Bits { x: 0, y: 0, z: 0 },
            lock_translation: IVec3 { x: 0, y: 0, z: 0 },
            lock_rotation: IVec3 { x: 0, y: 0, z: 0 },
        }
    }
}

/// Bit of the locked-axes set: translation along X.
pub const TRANSLATION_LOCKED_X: u8 = 1;

/// Bit of the locked-axes set: translation along Y.
pub const TRANSLATION_LOCKED_Y: u8 = 2;

/// Bit of the locked-axes set: translation along Z.
pub const TRANSLATION_LOCKED_Z: u8 = 4;

/// Bit of the locked-axes set: rotation about X.
pub const ROTATION_LOCKED_X: u8 = 8;

/// Bit of the locked-axes set: rotation about Y.
pub const ROTATION_LOCKED_Y: u8 = 16;

/// Bit of the locked-axes set: rotation about Z.
pub const ROTATION_LOCKED_Z: u8 = 32;

/// Linear and angular damping, copied through from the descriptor.
#[derive(Clone, Copy, PartialEq, Eq, Structural, Debug)]
pub struct Damping {
    pub linear_damping: u32,
    pub angular_damping: u32,
}

/// Initial velocity, copied through from the descriptor.
#[derive(Clone, Copy, PartialEq, Eq, Structural, Debug)]
pub struct Velocity {
    pub linvel: Vec3Bits,
    pub angvel: Vec3Bits,
}

/// The native component set a rigid-body descriptor resolves to.
#[derive(Clone, Copy, PartialEq, Eq, Structural, Debug)]
pub struct RigidBodyComponents {
    pub body: RigidBody,
    /// Bitset of locked axes, one `*_LOCKED_*` bit per authored non-zero
    /// lock component.
    pub locked_axes: u8,
    pub damping: Damping,
    pub ccd_enabled: bool,
    pub velocity: Velocity,
    /// The initial pose, captured from the entity's transform at resolution
    /// time.
    pub pose: Transform,
}

/// The body kind a status tag resolves to. Tags outside 0..=3 default to
/// dynamic; unlike shape tags this is deliberately permissive.
pub open spec fn spec_body_kind(tag: u8) -> RigidBody {
    if tag == 1 {
        RigidBody::Fixed
    } else if tag == 2 {
        RigidBody::KinematicPositionBased
    } else if tag == 3 {
        RigidBody::KinematicVelocityBased
    } else {
        RigidBody::Dynamic
    }
}

/// The locked-axes bitset the authored per-axis flags resolve to.
pub open spec fn spec_locked_axes(lt: IVec3, lr: IVec3) -> u8 {
    (if lt.x != 0 {
        TRANSLATION_LOCKED_X
    } else {
        0
    }) | (if lt.y != 0 {
        TRANSLATION_LOCKED_Y
    } else {
        0
    }) | (if lt.z != 0 {
        TRANSLATION_LOCKED_Z
    } else {
        0
    }) | (if lr.x != 0 {
        ROTATION_LOCKED_X
    } else {
        0
    }) | (if lr.y != 0 {
        ROTATION_LOCKED_Y
    } else {
        0
    }) | (if lr.z != 0 {
        ROTATION_LOCKED_Z
    } else {
        0
    })
}

/// Everything a rigid-body descriptor resolves to, given the entity's
/// transform: kind from the status tag, locks as a bitset, damping, CCD and
/// velocity copied through, and the transform captured as the initial pose.
pub open spec fn spec_resolve_rigid_body(d: RigidBodyDescription, t: Transform)
    -> RigidBodyComponents {
    RigidBodyComponents {
        body: spec_body_kind(d.body_status),
        locked_axes: spec_locked_axes(d.lock_translation, d.lock_rotation),
        damping: Damping { linear_damping: d.damping_linear, angular_damping: d.damping_angular },
        ccd_enabled: d.ccd_enable,
        velocity: Velocity { linvel: d.velocity_linear, angvel: d.velocity_angular },
        pose: t,
    }
}

/// Resolves one rigid-body descriptor against the entity's transform. Total:
/// every descriptor resolves, whatever its tag.
pub fn resolve_rigid_body(d: &RigidBodyDescription, transform: &Transform) -> (r:
    RigidBodyComponents)
    ensures
        r == spec_resolve_rigid_body(*d, *transform),
{
    let body = if d.body_status == 1 {
        RigidBody::Fixed
    } else if d.body_status == 2 {
        RigidBody::KinematicPositionBased
    } else if d.body_status == 3 {
        RigidBody::KinematicVelocityBased
    } else {
        RigidBody::Dynamic
    };
    let locked_axes: u8 = (if d.lock_translation.x != 0 {
        TRANSLATION_LOCKED_X
    } else {
        0
    }) | (if d.lock_translation.y != 0 {
        TRANSLATION_LOCKED_Y
    } else {
        0
    }) | (if d.lock_translation.z != 0 {
        TRANSLATION_LOCKED_Z
    } else {
        0
    }) | (if d.lock_rotation.x != 0 {
        ROTATION_LOCKED_X
    } else {
        0
    }) | (if d.lock_rotation.y != 0 {
        ROTATION_LOCKED_Y
    } else {
        0
    }) | (if d.lock_rotation.z != 0 {
        ROTATION_LOCKED_Z
    } else {
        0
    });
    RigidBodyComponents {
        body,
        locked_axes,
        damping: Damping {
            linear_damping: d.damping_linear,
            angular_damping: d.damping_angular,
        },
        ccd_enabled: d.ccd_enable,
        velocity: Velocity { linvel: d.velocity_linear, angvel: d.velocity_angular },
        pose: *transform,
    }
}

// ---------------------------------------------------------------------------
// Colliders
// ---------------------------------------------------------------------------
/// The shape payload of a collider descriptor sits in a
/// `smallvec::SmallVec<[u8; 8]>`, as the exporter's records are
/// deserialized (short payloads stay inline, 12-byte box payloads spill).
/// The container is opaque to the verifier, so it lives in this
/// `external_body` struct; the uninterpreted function [`small_vec_bytes`]
/// names its contents, and the two wrappers below are the only ways in or
/// out.
#[verifier::external_body]
pub struct ShapePayload {
    data: smallvec::SmallVec<[u8; 8]>,
}

/// The byte contents of a shape payload's small vector, in order.
pub uninterp spec fn small_vec_bytes(v: ShapePayload) -> Seq<u8>;

/// Relies on smallvec::SmallVec::from_vec: the vector's elements become the
/// small vector's contents, in the same order.
#[verifier::external_body]
fn small_vec_from_vec(v: Vec<u8>) -> (r: ShapePayload)
    ensures
        small_vec_bytes(r) == v@,
{
    ShapePayload { data: smallvec::SmallVec::from_vec(v) }
}

/// Relies on smallvec::SmallVec::as_slice, which hands out the whole
/// contents in order, and std's slice `to_vec`.
#[verifier::external_body]
fn small_vec_to_vec(v: &ShapePayload) -> (r: Vec<u8>)
    ensures
        r@ == small_vec_bytes(*v),
{
    v.data.as_slice().to_vec()
}

/// Transient component describing a collider to create. Present only until
/// the resolution pass consumes it.
pub struct ColliderDescription {
    /// Friction coefficient (IEEE-754 bits).
    pub friction: u32,
    /// Restitution coefficient (IEEE-754 bits).
    pub restitution: u32,
    /// A sensor reports contacts without generating collision response.
    pub is_sensor: bool,
    /// Mass density (IEEE-754 bits).
    pub density: u32,
    /// Offset from the entity origin to the shape's center, so a shape need
    /// not be centered where the entity sits.
    pub centroid_translation: Vec3Bits,
    /// Shape tag: 0 sphere, 1 capsule, 2 box. Anything else is fatal.
    pub collider_shape: u8,
    /// The tagged payload, decoded under `collider_shape`.
    pub collider_shape_data: ShapePayload,
}

impl ColliderDescription {
    /// Builds a descriptor with the given shape payload bytes.
    pub fn new(
        friction: u32,
        restitution: u32,
        is_sensor: bool,
        density: u32,
        centroid_translation: Vec3Bits,
        collider_shape: u8,
        collider_shape_data: Vec<u8>,
    ) -> (r: ColliderDescription)
        ensures
            r.friction == friction,
            r.restitution == restitution,
            r.is_sensor == is_sensor,
            r.density == density,
            r.centroid_translation == centroid_translation,
            r.collider_shape == collider_shape,
            small_vec_bytes(r.collider_shape_data) == collider_shape_data@,
    {
        ColliderDescription {
            friction,
            restitution,
            is_sensor,
            density,
            centroid_translation,
            collider_shape,
            collider_shape_data: small_vec_from_vec(collider_shape_data),
        }
    }
}

/// The native component set a collider descriptor resolves to.
#[derive(Clone, Copy, PartialEq, Eq, Structural, Debug)]
pub struct ColliderComponents {
    /// The decoded collision shape.
    pub shape: ShapeParams,
    /// Sensor or solid collision semantics.
    pub is_sensor: bool,
    pub friction: u32,
    pub restitution: u32,
    pub density: u32,
    /// Local offset applied to the shape, copied through.
    pub centroid_translation: Vec3Bits,
}

/// What a collider descriptor resolves to: its payload decoded under its
/// tag, the remaining fields copied through; or exactly the shape decoding
/// error.
pub open spec fn spec_resolve_collider(d: ColliderDescription) -> Result<
    ColliderComponents,
    ShapeError,
> {
    match spec_decode_shape(d.collider_shape, small_vec_bytes(d.collider_shape_data)) {
        Ok(shape) => Ok(
            ColliderComponents {
                shape,
                is_sensor: d.is_sensor,
                friction: d.friction,
                restitution: d.restitution,
                density: d.density,
                centroid_translation: d.centroid_translation,
            },
        ),
        Err(e) => Err(e),
    }
}

/// Resolves one collider descriptor. Succeeds exactly when its shape payload
/// decodes under its tag.
pub fn resolve_collider(d: &ColliderDescription) -> (r: Result<ColliderComponents, ShapeError>)
    ensures
        r == spec_resolve_collider(*d),
{
    let data = small_vec_to_vec(&d.collider_shape_data);
    match decode_shape(d.collider_shape, data.as_slice()) {
        Ok(shape) => Ok(
            ColliderComponents {
                shape,
                is_sensor: d.is_sensor,
                friction: d.friction,
                restitution: d.restitution,
                density: d.density,
                centroid_translation: d.centroid_translation,
            },
        ),
        Err(e) => Err(e),
    }
}

// ---------------------------------------------------------------------------
// The rigid-body resolution pass
// ---------------------------------------------------------------------------
/// What one pass does to one entity: the descriptor, if any, is removed and
/// its resolved component set attached; everything else is untouched.
pub open spec fn spec_body_step(e: EntityRecord) -> EntityRecord {
    EntityRecord {
        body_description: None,
        body: (match e.body_description {
            Some(d) => Some(spec_resolve_rigid_body(d, e.transform)),
            None => e.body,
        }),
        ..e
    }
}

/// What one pass does to the whole world: every entity steps independently.
pub open spec fn spec_body_pass(es: Seq<EntityRecord>) -> Seq<EntityRecord> {
    Seq::new(es.len(), |i: int| spec_body_step(es[i]))
}

/// The rigid-body resolution pass. For every entity that carries a
/// `RigidBodyDescription`, the descriptor is removed and the resolved
/// component set, built against the entity's transform, attached — both in
/// the same step, so no entity is ever seen with both or with neither.
/// Entities without a descriptor, and every other component, are untouched.
pub fn body_description_to_builder(w: &mut World)
    ensures
        final(w).entities@ == spec_body_pass(old(w).entities@),
{
    let ghost es0 = w.entities@;
    let n = w.entities.len();
    let mut out: Vec<EntityRecord> = Vec::with_capacity(n);
    let mut i: usize = 0;
    while i < n
        invariant
            i <= n,
            n == es0.len(),
            out@.len() == i,
            w.entities@ == es0.subrange(i as int, n as int),
            forall|j: int| 0 <= j < i ==> out@[j] == spec_body_step(es0[j]),
        decreases n - i,
    {
        let e = w.entities.remove(0);
        proof {
            assert(w.entities@ =~= es0.subrange((i + 1) as int, n as int));
        }
        let EntityRecord {
            transform,
            label,
            mesh_loader,
            material_loader,
            collection_loader,
            body_description,
            collider_description,
            mesh_handle,
            material_handle,
            body,
            collider,
        } = e;
        let new_body: Option<RigidBodyComponents> = match &body_description {
            Some(d) => Some(resolve_rigid_body(d, &transform)),
            None => body,
        };
        out.push(
            EntityRecord {
                transform,
                label,
                mesh_loader,
                material_loader,
                collection_loader,
                body_description: None,
                collider_description,
                mesh_handle,
                material_handle,
                body: new_body,
                collider,
            },
        );
        i = i + 1;
    }
    w.entities = out;
    proof {
        assert(final(w).entities@ =~= spec_body_pass(es0));
    }
}

// ---------------------------------------------------------------------------
// The collider resolution pass
// ---------------------------------------------------------------------------
/// Whether an entity's collider descriptor, if it has one, decodes.
pub open spec fn spec_collider_ok(e: EntityRecord) -> bool {
    match e.collider_description {
        Some(d) => spec_resolve_collider(d) is Ok,
        None => true,
    }
}

/// Whether every collider descriptor in the world decodes.
pub open spec fn spec_colliders_ok(es: Seq<EntityRecord>) -> bool {
    forall|i: int| 0 <= i < es.len() ==> spec_collider_ok(#[trigger] es[i])
}

/// The components an entity's collider descriptor resolves to, if it has one
/// that decodes.
pub open spec fn spec_collider_entry(e: EntityRecord) -> Option<ColliderComponents> {
    match e.collider_description {
        Some(d) => (match spec_resolve_collider(d) {
            Ok(c) => Some(c),
            Err(_) => None,
        }),
        None => None,
    }
}

/// What a successful pass does to one entity: the descriptor, if any, is
/// removed and its resolved component set attached; everything else is
/// untouched.
pub open spec fn spec_collider_step(e: EntityRecord) -> EntityRecord {
    EntityRecord {
        collider_description: None,
        collider: (match e.collider_description {
            Some(d) => (match spec_resolve_collider(d) {
                Ok(c) => Some(c),
                Err(_) => e.collider,
            }),
            None => e.collider,
        }),
        ..e
    }
}

/// What a successful pass does to the whole world.
pub open spec fn spec_collider_pass(es: Seq<EntityRecord>) -> Seq<EntityRecord> {
    Seq::new(es.len(), |i: int| spec_collider_step(es[i]))
}

/// The error of an entity whose collider descriptor does not decode.
pub open spec fn spec_collider_error_of(e: EntityRecord) -> ShapeError {
    match e.collider_description {
        Some(d) => (match spec_resolve_collider(d) {
            Ok(_) => arbitrary(),
            Err(er) => er,
        }),
        None => arbitrary(),
    }
}

/// The error of the first entity, in index order, whose collider descriptor
/// does not decode.
pub open spec fn spec_first_collider_error(es: Seq<EntityRecord>) -> ShapeError
    decreases es.len(),
{
    if es.len() == 0 {
        arbitrary()
    } else if !spec_collider_ok(es[0]) {
        spec_collider_error_of(es[0])
    } else {
        spec_first_collider_error(es.drop_first())
    }
}

/// When everything before index `i` is fine and entity `i` is not, the first
/// error is entity `i`'s.
proof fn lemma_first_collider_error_at(es: Seq<EntityRecord>, i: int)
    requires
        0 <= i < es.len(),
        forall|j: int| 0 <= j < i ==> spec_collider_ok(#[trigger] es[j]),
        !spec_collider_ok(es[i]),
    ensures
        spec_first_collider_error(es) == spec_collider_error_of(es[i]),
    decreases i,
{
    if i > 0 {
        assert(spec_collider_ok(es[0]));
        let rest = es.drop_first();
        assert forall|j: int| 0 <= j < i - 1 implies spec_collider_ok(#[trigger] rest[j]) by {
            assert(rest[j] == es[j + 1]);
        }
        assert(rest[i - 1] == es[i]);
        lemma_first_collider_error_at(rest, i - 1);
    }
}

/// The collider resolution pass. When every collider descriptor in the world
/// decodes, each is removed and its resolved component set attached, both in
/// the same step, and everything else is untouched. When any descriptor does
/// not decode — an authoring-contract violation — the pass fails with the
/// first such entity's error and changes nothing at all: resolved values are
/// computed in a read phase and committed only after all of them exist.
pub fn collider_description_to_builder(w: &mut World) -> (r: Result<(), ShapeError>)
    ensures
        (match r {
            Ok(_) => spec_colliders_ok(old(w).entities@) && final(w).entities@
                == spec_collider_pass(old(w).entities@),
            Err(e) => !spec_colliders_ok(old(w).entities@) && final(w).entities@ == old(
                w,
            ).entities@ && e == spec_first_collider_error(old(w).entities@),
        }),
{
    let ghost es0 = w.entities@;
    let n = w.entities.len();
    // Read phase: resolve every descriptor, touching nothing.
    let mut resolved: Vec<Option<ColliderComponents>> = Vec::with_capacity(n);
    let mut i: usize = 0;
    while i < n
        invariant
            i <= n,
            n == es0.len(),
            w.entities@ == es0,
            resolved@.len() == i,
            forall|j: int| 0 <= j < i ==> spec_collider_ok(#[trigger] es0[j]),
            forall|j: int| 0 <= j < i ==> resolved@[j] == spec_collider_entry(#[trigger] es0[j]),
        decreases n - i,
    {
        let ent = &w.entities[i];
        match &ent.collider_description {
            Some(d) => {
                match resolve_collider(d) {
                    Ok(c) => {
                        resolved.push(Some(c));
                    },
                    Err(er) => {
                        proof {
                            assert(!spec_collider_ok(es0[i as int]));
                            lemma_first_collider_error_at(es0, i as int);
                        }
                        return Err(er);
                    },
                }
            },
            None => {
                resolved.push(None);
            },
        }
        i = i + 1;
    }
    // Commit phase: every descriptor decoded; swap each for its components.
    let mut out: Vec<EntityRecord> = Vec::with_capacity(n);
    let mut i2: usize = 0;
    while i2 < n
        invariant
            i2 <= n,
            n == es0.len(),
            out@.len() == i2,
            w.entities@ == es0.subrange(i2 as int, n as int),
            resolved@.len() == n,
            forall|j: int| 0 <= j < n ==> spec_collider_ok(#[trigger] es0[j]),
            forall|j: int| 0 <= j < n ==> resolved@[j] == spec_collider_entry(#[trigger] es0[j]),
            forall|j: int| 0 <= j < i2 ==> out@[j] == spec_collider_step(es0[j]),
        decreases n - i2,
    {
        let e = w.entities.remove(0);
        proof {
            assert(w.entities@ =~= es0.subrange((i2 + 1) as int, n as int));
        }
        let rc = resolved[i2];
        let EntityRecord {
            transform,
            label,
            mesh_loader,
            material_loader,
            collection_loader,
            body_description,
            collider_description,
            mesh_handle,
            material_handle,
            body,
            collider,
        } = e;
        let new_collider: Option<ColliderComponents> = match &collider_description {
            Some(_) => rc,
            None => collider,
        };
        out.push(
            EntityRecord {
                transform,
                label,
                mesh_loader,
                material_loader,
                collection_loader,
                body_description,
                collider_description: None,
                mesh_handle,
                material_handle,
                body,
                collider: new_collider,
            },
        );
        i2 = i2 + 1;
    }
    w.entities = out;
    proof {
        assert(final(w).entities@ =~= spec_collider_pass(es0));
    }
    Ok(())
}

/// A successful collider pass consumes every collider descriptor, so a
/// second pass has nothing to fail on and changes nothing.
pub proof fn lemma_collider_pass_idempotent(es: Seq<EntityRecord>)
    ensures
        forall|i: int|
            0 <= i < es.len() ==> (#[trigger] spec_collider_pass(es)[i]).collider_description
                is None,
        spec_colliders_ok(spec_collider_pass(es)),
        spec_collider_pass(spec_collider_pass(es)) == spec_collider_pass(es),
{
    assert(spec_collider_pass(spec_collider_pass(es)) =~= spec_collider_pass(es));
}

/// One rigid-body pass resolves everything, and a second pass is a no-op:
/// after a pass no entity carries a descriptor, every entity that carried
/// one now carries exactly one resolved component set, and passing again
/// changes nothing.
pub proof fn lemma_body_pass_idempotent(es: Seq<EntityRecord>)
    ensures
        forall|i: int| 0 <= i < es.len() ==> (#[trigger] spec_body_pass(es)[i]).body_description
            is None,
        forall|i: int|
            0 <= i < es.len() && es[i].body_description is Some ==> (#[trigger] spec_body_pass(
                es,
            )[i]).body is Some,
        spec_body_pass(spec_body_pass(es)) == spec_body_pass(es),
{
    assert(spec_body_pass(spec_body_pass(es)) =~= spec_body_pass(es));
}

} // verus!
