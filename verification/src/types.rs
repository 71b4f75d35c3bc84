//! Plain value types mirroring the native library's by-value structs.
//!
//! The native library stores vector components as 32-bit floating-point
//! numbers; here each component is carried as its 32-bit pattern, an opaque
//! `u32` that the logic of this crate only moves and compares, never
//! interprets numerically.

use vstd::prelude::*;

verus! {

/// A three-component vector; each field is the 32-bit pattern of one
/// component.
#[derive(Clone, Copy, PartialEq, Eq, Structural, Debug)]
pub struct Vector3 {
    pub x: u32,
    pub y: u32,
    pub z: u32,
}

/// A four-component vector; each field is the 32-bit pattern of one
/// component.
#[derive(Clone, Copy, PartialEq, Eq, Structural, Debug)]
pub struct Vector4 {
    pub x: u32,
    pub y: u32,
    pub z: u32,
    pub w: u32,
}

/// One bone pose: translation, rotation (a quaternion) and scale.
#[derive(Clone, Copy, PartialEq, Eq, Structural, Debug)]
pub struct Transform {
    pub translation: Vector3,
    pub rotation: Vector4,
    pub scale: Vector3,
}

/// An 8-bit-per-channel RGBA color.
#[derive(Clone, Copy, PartialEq, Eq, Structural, Debug)]
pub struct Color {
    pub r: u8,
    pub g: u8,
    pub b: u8,
    pub a: u8,
}

/// What the binding layer reads of a native texture: its handle id and its
/// basic dimensions.
#[derive(Clone, Copy, PartialEq, Eq, Structural, Debug)]
pub struct Texture2D {
    pub id: u32,
    pub width: i32,
    pub height: i32,
    pub mipmaps: i32,
    pub format: i32,
}

/// What the binding layer reads of one bone: its fixed-width name field and
/// the index of its parent bone.
#[derive(Clone, Copy, Debug)]
pub struct BoneInfo {
    pub name: [u8; 32],
    pub parent: i32,
}

/// What the binding layer reads of a native shader: its handle id and its
/// attribute/uniform location table.
#[derive(Debug)]
pub struct Shader {
    pub id: u32,
    pub locs: Vec<i32>,
}

} // verus!
