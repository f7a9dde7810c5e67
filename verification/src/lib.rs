//! Core of a live mesh viewer: watches one mesh file and re-displays it on
//! every change.
//!
//! Geometry is carried in fixed-point coordinates (`UNIT` subdivisions per
//! model unit) so that every step of the pipeline has an exact contract.
//! The surrounding process converts to and from the renderer's own scalar
//! type at the boundary.

pub mod math;
pub mod mesh;
pub mod normalize;
pub mod orbit;
pub mod reload;
pub mod scene;
pub mod watch;

use vstd::prelude::*;

verus! {

/// Number of fixed-point subdivisions in one model unit: a coordinate value
/// of `UNIT` stands for 1.0.
pub const UNIT: i64 = 1_000_000;

/// Largest magnitude a raw mesh coordinate may have; meshes beyond this are
/// treated as malformed so that the normalizing arithmetic stays in range.
pub const COORD_LIMIT: i64 = 1_000_000_000_000;

} // verus!
