//! Surface configuration sizing and the screen description.
use vstd::prelude::*;

verus! {

/// A surface dimension with zero replaced by one.
pub open spec fn clamp_spec(x: u32) -> u32 {
    if x == 0 {
        1
    } else {
        x
    }
}

/// Clamps one requested surface dimension to the minimum of one pixel.
pub fn clamp_dimension(x: u32) -> (r: u32)
    ensures
        r == clamp_spec(x),
        r >= 1,
{
    if x == 0 {
        1
    } else {
        x
    }
}

/// Width and height of the configured presentation surface, in pixels.
#[derive(Clone, Copy, Debug, PartialEq, Eq, Structural)]
pub struct SurfaceExtent {
    pub width: u32,
    pub height: u32,
}

impl SurfaceExtent {
    /// A configured surface is never zero-sized.
    pub open spec fn wf(self) -> bool {
        self.width >= 1 && self.height >= 1
    }

    /// The extent configured for a requested size.
    pub open spec fn clamped_spec(width: u32, height: u32) -> SurfaceExtent {
        SurfaceExtent { width: clamp_spec(width), height: clamp_spec(height) }
    }

    /// The extent configured for a requested size: zero dimensions become one,
    /// every other dimension is kept.
    pub fn clamped(width: u32, height: u32) -> (r: SurfaceExtent)
        ensures
            r == SurfaceExtent::clamped_spec(width, height),
            r.wf(),
    {
        SurfaceExtent { width: clamp_dimension(width), height: clamp_dimension(height) }
    }
}

/// The size in pixels that the renderer draws for. The display scale factor
/// travels beside it, with the platform layer that reports it.
#[derive(Clone, Copy, Debug, PartialEq, Eq, Structural)]
pub struct ScreenDescription {
    pub width_in_pixels: u32,
    pub height_in_pixels: u32,
}

} // verus!
