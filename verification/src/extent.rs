//! A two-dimensional pixel size, shared by the surface configuration and the
//! depth attachment.

use vstd::prelude::*;

verus! {

/// A width and height in pixels.
#[derive(Clone, Copy, Debug, PartialEq, Eq, Structural)]
pub struct Extent2 {
    pub width: u32,
    pub height: u32,
}

impl Extent2 {
    /// Both dimensions are nonzero, as the presentation engine demands of
    /// every surface configuration and texture it is given.
    pub open spec fn spec_positive(self) -> bool {
        self.width > 0 && self.height > 0
    }

    /// Whether both dimensions are nonzero.
    pub fn positive(&self) -> (r: bool)
        ensures
            r == self.spec_positive(),
    {
        self.width > 0 && self.height > 0
    }

    /// Both dimensions are nonzero and no larger than `limit`: the sizes a
    /// device with maximum texture dimension `limit` accepts.
    pub open spec fn spec_fits(self, limit: u32) -> bool {
        0 < self.width <= limit && 0 < self.height <= limit
    }

    /// Whether both dimensions are nonzero and no larger than `limit`.
    pub fn fits(&self, limit: u32) -> (r: bool)
        ensures
            r == self.spec_fits(limit),
    {
        0 < self.width && self.width <= limit && 0 < self.height && self.height <= limit
    }
}

} // verus!
