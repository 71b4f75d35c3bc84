//! Plain-data layer for 3D models, meshes, materials and model animations.
//!
//! A native graphics library owns the actual rendering resources; this crate
//! models what the binding layer reads out of those resources — element
//! counts, buffer contents, null-handle outcomes — as plain values, and
//! carries the load-time validity decisions and accessor logic over them.

pub mod animation;
pub mod material;
pub mod mesh;
pub mod model;
pub mod types;

use vstd::prelude::*;

verus! {

/// Drop action for wrapper types whose payload owns no releasable resource:
/// it consumes the value and does nothing further.
pub fn no_drop<T>(_thing: T) {
}

} // verus!
