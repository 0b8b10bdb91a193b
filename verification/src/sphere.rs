//! The sphere primitive.

use vstd::prelude::*;

verus! {

use crate::fixed::SCALE;
use crate::vec3::Vec3;

/// Largest coordinate magnitude a well-formed scene may use
/// (10,000 spatial units in real terms).
pub const MAX_COORD: i64 = 100_000_000;

/// A sphere: fixed-layout value type, immutable after scene construction.
///
/// `color` holds linear RGB with each channel in `[0, SCALE]`;
/// `reflectivity` is in `[0, SCALE]`, 0 meaning fully diffuse and
/// `SCALE` a perfect mirror.
#[derive(Clone, Copy, Debug, PartialEq, Eq, Structural)]
pub struct Sphere {
    pub center: Vec3,
    pub radius: i64,
    pub color: Vec3,
    pub reflectivity: i64,
}

impl Sphere {
    /// Well-formedness: a positive, bounded radius, a bounded center,
    /// channels in `[0, SCALE]` and reflectivity in `[0, SCALE]`.
    pub open spec fn wf(self) -> bool {
        &&& 0 < self.radius <= MAX_COORD
        &&& -MAX_COORD <= self.center.x <= MAX_COORD
        &&& -MAX_COORD <= self.center.y <= MAX_COORD
        &&& -MAX_COORD <= self.center.z <= MAX_COORD
        &&& 0 <= self.color.x <= SCALE
        &&& 0 <= self.color.y <= SCALE
        &&& 0 <= self.color.z <= SCALE
        &&& 0 <= self.reflectivity <= SCALE
    }

    /// Build a sphere from its parts.
    pub fn new(center: Vec3, radius: i64, color: Vec3, reflectivity: i64) -> (s: Sphere)
        ensures
            s == (Sphere { center, radius, color, reflectivity }),
    {
        Sphere { center, radius, color, reflectivity }
    }
}

} // verus!
