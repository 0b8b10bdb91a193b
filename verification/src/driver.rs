//! The frame driver: a state machine with externally triggered
//! transitions.
//!
//! The windowing/GPU glue owns the event loop and the device; it reports
//! resizes, per-frame ticks, lost surfaces and the close request here,
//! performs whatever action [`FrameDriver::tick`] asks for, and never
//! decides anything itself.

use vstd::prelude::*;

verus! {

use crate::camera::Camera;
use crate::scene::{advance_s, default_spheres, Scene, LIGHT_INTENSITY, LIGHT_Y};

/// The driver's externally visible state.
#[derive(Clone, Copy, Debug, PartialEq, Eq, Structural)]
pub enum DriverState {
    /// Rendering proceeds: one frame per tick.
    Ready,
    /// The output surface has zero area (e.g. a minimized window);
    /// rendering is skipped until a valid resize arrives.
    Suspended,
    /// A close was requested; no further frames are produced.
    ShutDown,
}

/// Orchestrates the per-frame order: animate the scene, refresh the
/// GPU-visible snapshots, dispatch one shading pass, present.  It is the
/// single writer of scene and camera state; the shading stage only reads.
pub struct FrameDriver {
    pub state: DriverState,
    pub width: u32,
    pub height: u32,
    pub camera: Camera,
    pub scene: Scene,
}

impl FrameDriver {
    /// Well-formedness: the stored size is the last valid one, the camera
    /// tracks it, and the scene is well-formed.
    pub open spec fn wf(self) -> bool {
        &&& self.width > 0
        &&& self.height > 0
        &&& self.camera.width == self.width
        &&& self.camera.height == self.height
        &&& self.scene.wf()
    }

    /// What a resize transition yields: a degenerate size suspends
    /// rendering and touches nothing else; a valid size updates the
    /// camera and the stored dimensions and returns to `Ready`.
    /// A shut-down driver ignores every resize.
    pub open spec fn resize_s(self, width: u32, height: u32) -> FrameDriver {
        if self.state == DriverState::ShutDown {
            self
        } else if width == 0 || height == 0 {
            FrameDriver { state: DriverState::Suspended, ..self }
        } else {
            FrameDriver {
                state: DriverState::Ready,
                width,
                height,
                camera: self.camera.resize_s(width, height),
                ..self
            }
        }
    }

    /// Set up a driver for an output surface of the given size; a
    /// degenerate size is a setup failure, reported to the caller.
    pub fn new(width: u32, height: u32) -> (d: Option<FrameDriver>)
        ensures
            width > 0 && height > 0 <==> d is Some,
            d matches Some(drv) ==> {
                &&& drv.wf()
                &&& drv.state == DriverState::Ready
                &&& drv.width == width
                &&& drv.height == height
                &&& Camera::new_s(width, height) == Some(drv.camera)
                &&& drv.scene.spheres@ == default_spheres()
                &&& drv.scene.light_phase == 0
                &&& drv.scene.light_y == LIGHT_Y
                &&& drv.scene.light_intensity == LIGHT_INTENSITY
            },
    {
        match Camera::new(width, height) {
            None => None,
            Some(camera) => Some(FrameDriver {
                state: DriverState::Ready,
                width,
                height,
                camera,
                scene: Scene::new(),
            }),
        }
    }

    /// The resize transition.
    pub fn resize(&mut self, width: u32, height: u32)
        ensures
            *final(self) == old(self).resize_s(width, height),
            old(self).wf() ==> final(self).wf(),
    {
        if matches!(self.state, DriverState::ShutDown) {
            return ;
        }
        if width == 0 || height == 0 {
            self.state = DriverState::Suspended;
            return ;
        }
        self.camera.resize(width, height);
        self.width = width;
        self.height = height;
        self.state = DriverState::Ready;
    }

    /// The per-frame tick: in `Ready` the scene is animated by the
    /// elapsed time and one frame must be rendered and presented; in any
    /// other state nothing happens and nothing is rendered.
    pub fn tick(&mut self, dt_ms: u64) -> (render: bool)
        requires
            old(self).wf(),
        ensures
            final(self).wf(),
            render <==> old(self).state == DriverState::Ready,
            final(self).state == old(self).state,
            final(self).width == old(self).width,
            final(self).height == old(self).height,
            final(self).camera == old(self).camera,
            final(self).scene.spheres@ == old(self).scene.spheres@,
            final(self).scene.light_y == old(self).scene.light_y,
            final(self).scene.light_intensity == old(self).scene.light_intensity,
            final(self).scene.light_phase >= old(self).scene.light_phase,
            render ==> final(self).scene.light_phase as int
                == advance_s(old(self).scene.light_phase as int, dt_ms as int),
            !render ==> final(self).scene.light_phase == old(self).scene.light_phase,
    {
        if matches!(self.state, DriverState::Ready) {
            self.scene.animate(dt_ms);
            true
        } else {
            false
        }
    }

    /// A failed present (lost or outdated surface) is recoverable: re-run
    /// the resize transition with the last known dimensions to force a
    /// surface reconfiguration.
    pub fn surface_lost(&mut self)
        requires
            old(self).wf(),
        ensures
            *final(self) == old(self).resize_s(old(self).width, old(self).height),
            final(self).wf(),
    {
        let width = self.width;
        let height = self.height;
        self.resize(width, height);
    }

    /// The close request: enter the terminal state.
    pub fn request_close(&mut self)
        ensures
            final(self).state == DriverState::ShutDown,
            final(self).width == old(self).width,
            final(self).height == old(self).height,
            final(self).camera == old(self).camera,
            final(self).scene == old(self).scene,
    {
        self.state = DriverState::ShutDown;
    }
}

/// Suspend-resume round trip: resizing a ready driver to a degenerate
/// size and then back to its own size restores the driver exactly — the
/// renderer is `Ready` again and, frames being a pure function of driver
/// state, produces frames identical to one never resized.
pub proof fn lemma_suspend_resume_identity(d: FrameDriver)
    requires
        d.wf(),
        d.state == DriverState::Ready,
    ensures
        d.resize_s(0, 0).resize_s(d.width, d.height) == d,
{
}

} // verus!
