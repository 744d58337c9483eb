//! Error taxonomy of the rendering core.
//!
//! Configuration errors are the embedding application's concern and are not
//! represented here.  Device loss has no variant of its own: the presentation
//! engine reports it through a fatal acquisition failure, which ends the
//! session.

use vstd::prelude::*;

verus! {

/// Why acquiring the frame's destination image failed.  The variants mirror
/// the presentation engine's surface statuses, one for one.
#[derive(Clone, Copy, Debug, PartialEq, Eq, Structural)]
pub enum AcquireError {
    /// The presentation engine timed out handing back an image.
    Timeout,
    /// The surface no longer matches the window and must be reconfigured.
    Outdated,
    /// The surface was lost and must be reconfigured.
    Lost,
    /// The device is out of memory; fatal.
    OutOfMemory,
    /// Any other acquisition failure; fatal.
    Other,
}

impl AcquireError {
    /// The failures that one reconfigure-and-reacquire can repair.
    pub open spec fn spec_recoverable(self) -> bool {
        self is Timeout || self is Outdated || self is Lost
    }

    /// Whether a resize followed by a second acquisition attempt may succeed.
    pub fn recoverable(&self) -> (r: bool)
        ensures
            r == self.spec_recoverable(),
    {
        match self {
            AcquireError::Timeout => true,
            AcquireError::Outdated => true,
            AcquireError::Lost => true,
            AcquireError::OutOfMemory => false,
            AcquireError::Other => false,
        }
    }
}

/// A failure of the rendering core, as propagated to the session driver.
#[derive(Clone, Copy, Debug, PartialEq, Eq, Structural)]
pub enum RenderError {
    /// No compatible graphics adapter or logical device could be obtained.
    DeviceUnavailable,
    /// No usable surface, or no valid surface configuration, exists for the
    /// adapter and window at hand.
    SurfaceConfigUnavailable,
    /// Acquiring the frame's destination image failed even after the one
    /// permitted reconfigure-and-retry; the session cannot continue.
    SurfaceAcquisition(AcquireError),
}

} // verus!
