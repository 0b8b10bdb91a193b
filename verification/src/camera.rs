//! The camera: output-surface size turned into shading parameters.
//!
//! The aspect ratio is kept exactly, as the pair `width / height` of the
//! stored viewport dimensions; the fixed-point value handed to the shading
//! stage is derived from it on demand.

use vstd::prelude::*;

verus! {

use crate::fixed::SCALE;
use crate::vec3::Vec3;

/// Projection state derived from the output-surface size: the viewport
/// dimensions (whose exact quotient is the aspect ratio) and the eye
/// position, a fixed forward-looking point on the `+z` axis looking
/// down `-z`.
#[derive(Clone, Copy, Debug, PartialEq, Eq, Structural)]
pub struct Camera {
    pub width: u32,
    pub height: u32,
    pub position: Vec3,
}

/// The default eye position, one unit up the `+z` axis.
pub open spec fn default_eye() -> Vec3 {
    Vec3 { x: 0, y: 0, z: SCALE }
}

impl Camera {
    /// Well-formedness: both viewport dimensions are positive.
    pub open spec fn wf(self) -> bool {
        self.width > 0 && self.height > 0
    }

    /// The camera's aspect ratio equals `w / h` as an exact rational.
    pub open spec fn aspect_ratio_eq(self, w: int, h: int) -> bool {
        (self.width as int) * h == w * (self.height as int)
    }

    /// What construction yields: a camera for a valid size, nothing for a
    /// degenerate one.
    pub open spec fn new_s(width: u32, height: u32) -> Option<Camera> {
        if width == 0 || height == 0 {
            None
        } else {
            Some(Camera { width, height, position: default_eye() })
        }
    }

    /// What a resize yields: unchanged state for a degenerate size
    /// (the surface is temporarily invalid), else the new dimensions.
    pub open spec fn resize_s(self, width: u32, height: u32) -> Camera {
        if width == 0 || height == 0 {
            self
        } else {
            Camera { width, height, position: self.position }
        }
    }

    /// The fixed-point aspect ratio handed to the shading stage:
    /// `width / height` on the `SCALE` grid, truncated.
    pub open spec fn aspect_fx_s(self) -> int {
        ((self.width as int) * (SCALE as int)) / (self.height as int)
    }

    /// Construct a camera for an output surface of the given size.
    /// A degenerate size (zero width or height) is rejected: accepting it
    /// would poison the aspect ratio of every subsequent frame.
    pub fn new(width: u32, height: u32) -> (c: Option<Camera>)
        ensures
            c == Camera::new_s(width, height),
            width > 0 && height > 0 <==> c is Some,
            c matches Some(cam) ==> cam.wf() && cam.aspect_ratio_eq(width as int, height as int),
    {
        if width == 0 || height == 0 {
            None
        } else {
            Some(Camera { width, height, position: Vec3 { x: 0, y: 0, z: SCALE } })
        }
    }

    /// Recompute the projection for a new output size.  A size with a zero
    /// dimension leaves the camera untouched (minimized window); rendering
    /// is skipped in that state rather than computed with a degenerate
    /// aspect ratio.
    pub fn resize(&mut self, width: u32, height: u32)
        ensures
            *final(self) == old(self).resize_s(width, height),
            width == 0 || height == 0 ==> *final(self) == *old(self),
            width > 0 && height > 0 ==> final(self).wf()
                && final(self).aspect_ratio_eq(width as int, height as int),
    {
        if width == 0 || height == 0 {
            return ;
        }
        self.width = width;
        self.height = height;
    }

    /// The fixed-point aspect ratio for upload to the shading stage.
    pub fn aspect_fx(&self) -> (r: i64)
        requires
            self.wf(),
        ensures
            r as int == self.aspect_fx_s(),
            r >= 0,
    {
        (((self.width as u64) * (SCALE as u64)) / (self.height as u64)) as i64
    }
}

/// The aspect ratio is `width / height` exactly, as a rational number,
/// after construction with a valid size and after every valid resize
/// (whatever the camera's earlier state was).
pub proof fn lemma_aspect_ratio_exact(cam: Camera, w: u32, h: u32)
    requires
        w > 0,
        h > 0,
    ensures
        Camera::new_s(w, h) matches Some(c) && c.aspect_ratio_eq(w as int, h as int),
        cam.resize_s(w, h).aspect_ratio_eq(w as int, h as int),
{
}

/// A resize with a zero dimension is a no-op: it must not alter the
/// aspect ratio or any other camera state.
pub proof fn lemma_resize_degenerate_noop(cam: Camera, w: u32, h: u32)
    requires
        w == 0 || h == 0,
    ensures
        cam.resize_s(w, h) == cam,
{
}

} // verus!
