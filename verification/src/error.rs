//! What can go wrong at start-up and while rendering, and what follows from it.

use vstd::prelude::*;

verus! {

/// Why the graphics context could not be set up. Either is final: no context
/// exists afterwards.
#[derive(Clone, Copy, Debug, PartialEq, Eq, Structural)]
pub enum InitError {
    /// No adapter can present to the surface.
    NoAdapterFound,
    /// The adapter refused to hand out a device.
    DeviceRequestFailed,
}

/// Why a frame could not be acquired.
#[derive(Clone, Copy, Debug, PartialEq, Eq, Structural)]
pub enum RenderError {
    SurfaceLost,
    SurfaceOutdated,
    OutOfMemory,
    Timeout,
}

/// What the caller of a failed render does next.
#[derive(Clone, Copy, Debug, PartialEq, Eq, Structural)]
pub enum Disposition {
    /// Reconfigure the surface at the stored size and try again next frame.
    Reconfigure,
    /// Stop the render loop.
    Fatal,
    /// Skip this frame and carry on.
    Skip,
}

impl RenderError {
    /// A lost or outdated surface is recovered by reconfiguring, exhausted
    /// memory ends the loop, a timeout costs one frame.
    pub open spec fn spec_disposition(self) -> Disposition {
        match self {
            RenderError::SurfaceLost => Disposition::Reconfigure,
            RenderError::SurfaceOutdated => Disposition::Reconfigure,
            RenderError::OutOfMemory => Disposition::Fatal,
            RenderError::Timeout => Disposition::Skip,
        }
    }

    pub fn disposition(self) -> (disposition: Disposition)
        ensures
            disposition == self.spec_disposition(),
    {
        match self {
            RenderError::SurfaceLost => Disposition::Reconfigure,
            RenderError::SurfaceOutdated => Disposition::Reconfigure,
            RenderError::OutOfMemory => Disposition::Fatal,
            RenderError::Timeout => Disposition::Skip,
        }
    }
}

} // verus!
