//! Render target sizes, and the rule that turns a requested window size into
//! the size of the presentable images.
use vstd::prelude::*;

verus! {

/// The value a surface reports as its current width when the swapchain, not
/// the surface, decides the size of the images.
pub const UNDEFINED_DIMENSION: u32 = 0xFFFF_FFFF;

/// A width and a height in pixels.
#[derive(Clone, Copy, Debug, PartialEq, Eq, Structural)]
pub struct Extent2D {
    pub width: u32,
    pub height: u32,
}

/// An axis-aligned rectangle: an offset and an extent.
#[derive(Clone, Copy, Debug, PartialEq, Eq, Structural)]
pub struct Rect2D {
    pub x: i32,
    pub y: i32,
    pub extent: Extent2D,
}

/// `v` brought into `[lo, hi]`; the lower bound wins when the bounds cross.
pub open spec fn clamp_spec(v: u32, lo: u32, hi: u32) -> u32 {
    if v < lo {
        lo
    } else if v > hi {
        hi
    } else {
        v
    }
}

/// Whether an extent carries the "undefined" marker.
pub open spec fn is_undefined_spec(e: Extent2D) -> bool {
    e.width == UNDEFINED_DIMENSION
}

/// `requested` with each dimension brought into the range `[min, max]`.
pub open spec fn clamp_extent_spec(requested: Extent2D, min: Extent2D, max: Extent2D) -> Extent2D {
    Extent2D {
        width: clamp_spec(requested.width, min.width, max.width),
        height: clamp_spec(requested.height, min.height, max.height),
    }
}

/// Brings `v` into `[lo, hi]`.
pub fn clamp_dimension(v: u32, lo: u32, hi: u32) -> (r: u32)
    ensures
        r == clamp_spec(v, lo, hi),
{
    if v < lo {
        lo
    } else if v > hi {
        hi
    } else {
        v
    }
}

impl Extent2D {
    pub fn new(width: u32, height: u32) -> (r: Extent2D)
        ensures
            r.width == width,
            r.height == height,
    {
        Extent2D { width, height }
    }

    /// Whether this extent is the surface's "size is up to the swapchain" marker.
    pub fn is_undefined(&self) -> (r: bool)
        ensures
            r == is_undefined_spec(*self),
    {
        self.width == UNDEFINED_DIMENSION
    }

    /// This extent with each dimension brought into `[min, max]`.
    pub fn clamped(&self, min: Extent2D, max: Extent2D) -> (r: Extent2D)
        ensures
            r == clamp_extent_spec(*self, min, max),
    {
        Extent2D {
            width: clamp_dimension(self.width, min.width, max.width),
            height: clamp_dimension(self.height, min.height, max.height),
        }
    }
}

impl Rect2D {
    /// The rectangle at the origin that covers `extent`.
    pub fn at_origin(extent: Extent2D) -> (r: Rect2D)
        ensures
            r == (Rect2D { x: 0, y: 0, extent }),
    {
        Rect2D { x: 0, y: 0, extent }
    }
}

} // verus!
