//! The geometry of the display, to which every buffer of the pipeline is
//! sized.

use vstd::prelude::*;

verus! {

/// By how much each dimension is divided before the blur.
pub const SHRINK: u32 = 4;

/// Width and height of the screen in pixels, read once from the display.
#[derive(Clone, Copy, Debug, PartialEq, Eq, Structural)]
pub struct Geometry {
    pub width: u32,
    pub height: u32,
}

/// A quarter of `extent`, any remainder discarded.
pub open spec fn quarter_of(extent: nat) -> nat {
    extent / 4
}

/// A quarter of `extent`, by integer division: 1920 gives 480, and 7 gives 1.
pub fn quarter(extent: u32) -> (q: u32)
    ensures
        q == quarter_of(extent as nat),
        4 * q <= extent < 4 * q + 4,
{
    extent / SHRINK
}

impl Geometry {
    /// The geometry at which the blur is applied.
    pub open spec fn quartered_model(self) -> Geometry {
        Geometry { width: (self.width / 4) as u32, height: (self.height / 4) as u32 }
    }

    /// The geometry at which the blur is applied: a quarter of each
    /// dimension, which may fall short of an exact quarter by up to three
    /// pixels of the full size.
    #[verifier::when_used_as_spec(quartered_model)]
    pub fn quartered(self) -> (q: Geometry)
        ensures
            q == self.quartered_model(),
            q.width == quarter_of(self.width as nat),
            q.height == quarter_of(self.height as nat),
    {
        Geometry { width: quarter(self.width), height: quarter(self.height) }
    }
}

} // verus!
