use vstd::prelude::*;

verus! {

/// Integer rectangle, used both for destination rectangles (screen-space
/// pixels) and for source rectangles (element space, possibly in 16.16
/// fixed point). Extents are never negative in a well-formed rectangle.
#[derive(Clone, Copy, PartialEq, Eq, Structural, Debug)]
pub struct Rect {
    pub x: i32,
    pub y: i32,
    pub width: i32,
    pub height: i32,
}

impl Rect {
    /// Width and height are non-negative.
    pub open spec fn well_formed(self) -> bool {
        self.width >= 0 && self.height >= 0
    }

    /// The all-zero source rectangle is the convention for "map the
    /// whole source onto the destination".
    pub open spec fn is_full_source(self) -> bool {
        self.x == 0 && self.y == 0 && self.width == 0 && self.height == 0
    }
}

/// Destination rectangle for a fullscreen element: it covers the whole
/// display, anchored at the origin.
pub fn fullscreen_dest_rect(width: u32, height: u32) -> (r: Rect)
    requires
        width <= 0x7fff_ffff,
        height <= 0x7fff_ffff,
    ensures
        r == (Rect { x: 0, y: 0, width: width as i32, height: height as i32 }),
        r.well_formed(),
{
    Rect { x: 0, y: 0, width: width as i32, height: height as i32 }
}

/// The all-zero source rectangle: the compositor maps the whole source.
/// This is the preferred source-rect convention of this library; an
/// element must keep one convention for its whole lifetime.
pub fn full_source_rect() -> (r: Rect)
    ensures
        r.is_full_source(),
        r.well_formed(),
{
    Rect { x: 0, y: 0, width: 0, height: 0 }
}

/// Explicit source rectangle in 16.16 fixed point, anchored at the
/// origin: each extent is the pixel extent scaled by 2^16. The
/// alternative to `full_source_rect` for callers that want the sampling
/// region spelled out; an element must keep one convention for its
/// whole lifetime.
pub fn fixed_point_source_rect(width: u32, height: u32) -> (r: Rect)
    requires
        width <= 0x7fff,
        height <= 0x7fff,
    ensures
        r.x == 0 && r.y == 0,
        r.width == width * 0x1_0000,
        r.height == height * 0x1_0000,
        r.well_formed(),
        width > 0 || height > 0 ==> !r.is_full_source(),
{
    let w: u32 = width * 0x1_0000;
    let h: u32 = height * 0x1_0000;
    Rect { x: 0, y: 0, width: w as i32, height: h as i32 }
}

} // verus!
