//! Procedural generation of a small city: materials, buildings with floors
//! and walls, and the id-keyed maps that place things in the world.
//!
//! Coordinates are kept as the IEEE-754 bit patterns of single-precision
//! floats (`HashFlt`), so that positions can be compared for equality and
//! used as keys; the floating-point arithmetic itself happens outside this
//! crate.

pub mod building;
pub mod construction;
pub mod flt;
pub mod map;
pub mod item;
pub mod material;
pub mod statistics;
mod random;

use vstd::prelude::*;

pub use flt::HashFlt;

verus! {

/// A position or extent in the world, one bit pattern per axis.
#[derive(Copy, Clone, Debug, PartialEq, Eq, Hash, Structural)]
pub struct Vec3(pub HashFlt, pub HashFlt, pub HashFlt);

impl Vec3 {
    /// The origin: every axis holds the bit pattern of `0.0`.
    pub fn zero() -> (r: Self)
        ensures
            r == Vec3(HashFlt(0), HashFlt(0), HashFlt(0)),
    {
        Vec3(HashFlt(0), HashFlt(0), HashFlt(0))
    }
}

/// The column and row of cell `i` in a grid that is `w` cells wide and `h`
/// cells high, counting row by row.
pub fn idx_to_2d(i: usize, w: usize, h: usize) -> (r: (usize, usize))
    requires
        w > 0,
    ensures
        r == (i % w, i / w),
{
    (i % w, i / w)
}

} // verus!
