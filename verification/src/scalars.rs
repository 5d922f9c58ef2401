//! Plain value types for the scalar data that descriptors carry.
//!
//! The host simulation works with IEEE-754 single-precision vectors,
//! quaternions and colors. The resolution pipeline never computes with those
//! scalars, it only copies them, so they are carried here as raw bit
//! patterns (`u32`), exactly as they sit in the serialized buffers.

use vstd::prelude::*;

verus! {

/// Three scalars held as raw IEEE-754 bits (a position, a velocity, ...).
#[derive(Clone, Copy, PartialEq, Eq, Structural, Debug)]
pub struct Vec3Bits {
    pub x: u32,
    pub y: u32,
    pub z: u32,
}

impl Vec3Bits {
    /// The all-zero vector; zero bits encode 0.0 in every component.
    pub fn zero() -> (r: Vec3Bits)
        ensures
            r == (Vec3Bits { x: 0, y: 0, z: 0 }),
    {
        Vec3Bits { x: 0, y: 0, z: 0 }
    }
}

/// A rotation quaternion held as raw IEEE-754 bits.
#[derive(Clone, Copy, PartialEq, Eq, Structural, Debug)]
pub struct QuatBits {
    pub x: u32,
    pub y: u32,
    pub z: u32,
    pub w: u32,
}

/// The bit pattern of 1.0f32, the `w` component of the identity rotation.
pub const ONE_BITS: u32 = 0x3F80_0000;

impl QuatBits {
    /// The identity rotation (0, 0, 0, 1).
    pub fn identity() -> (r: QuatBits)
        ensures
            r == (QuatBits { x: 0, y: 0, z: 0, w: ONE_BITS }),
    {
        QuatBits { x: 0, y: 0, z: 0, w: ONE_BITS }
    }
}

/// An RGBA color held as raw IEEE-754 bits per channel.
#[derive(Clone, Copy, PartialEq, Eq, Structural, Debug)]
pub struct ColorBits {
    pub red: u32,
    pub green: u32,
    pub blue: u32,
    pub alpha: u32,
}

/// A vector of three signed integers, as the per-axis lock flags of a rigid
/// body descriptor are authored (a component is a lock when it is non-zero).
#[derive(Clone, Copy, PartialEq, Eq, Structural, Debug)]
pub struct IVec3 {
    pub x: i32,
    pub y: i32,
    pub z: i32,
}

impl IVec3 {
    pub fn zero() -> (r: IVec3)
        ensures
            r == (IVec3 { x: 0, y: 0, z: 0 }),
    {
        IVec3 { x: 0, y: 0, z: 0 }
    }
}

/// An entity's spatial pose: where it sits and how it is turned.
#[derive(Clone, Copy, PartialEq, Eq, Structural, Debug)]
pub struct Transform {
    pub translation: Vec3Bits,
    pub rotation: QuatBits,
}

impl Transform {
    /// The identity pose: at the origin, unrotated.
    pub fn identity() -> (r: Transform)
        ensures
            r.translation == (Vec3Bits { x: 0, y: 0, z: 0 }),
            r.rotation == (QuatBits { x: 0, y: 0, z: 0, w: ONE_BITS }),
    {
        Transform { translation: Vec3Bits::zero(), rotation: QuatBits::identity() }
    }
}

} // verus!
