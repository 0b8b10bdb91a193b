//! The point light primitive.

use vstd::prelude::*;

verus! {

use crate::sphere::MAX_COORD;
use crate::vec3::Vec3;

/// A point light: a position and a non-negative intensity.
///
/// Exactly one light exists per scene.  Its position is recomputed every
/// frame from the scene's orbit phase; a `Light` value is the snapshot the
/// shading algorithm reads.
#[derive(Clone, Copy, Debug, PartialEq, Eq, Structural)]
pub struct Light {
    pub position: Vec3,
    pub intensity: i64,
}

impl Light {
    /// Well-formedness: bounded position, non-negative bounded intensity.
    pub open spec fn wf(self) -> bool {
        &&& -MAX_COORD <= self.position.x <= MAX_COORD
        &&& -MAX_COORD <= self.position.y <= MAX_COORD
        &&& -MAX_COORD <= self.position.z <= MAX_COORD
        &&& 0 <= self.intensity <= MAX_COORD
    }
}

} // verus!
