use vstd::prelude::*;

verus! {

/// Sub-pixel units in one pixel: positions are stored in millionths of a pixel.
pub const SUBPIXELS: i64 = 1_000_000;

/// A pair of fixed-point coordinates (a position in sub-pixel units, or a
/// velocity in sub-pixel units per millisecond).
#[derive(Clone, Copy, Debug, PartialEq, Eq, Structural)]
pub struct Vec2 {
    pub x: i64,
    pub y: i64,
}

impl Vec2 {
    pub fn new(x: i64, y: i64) -> (r: Vec2)
        ensures
            r == (Vec2 { x, y }),
    {
        Vec2 { x, y }
    }

    /// The point at whole pixel coordinates `(x, y)`.
    pub fn from_pixels(x: i32, y: i32) -> (r: Vec2)
        ensures
            r.x == x * SUBPIXELS,
            r.y == y * SUBPIXELS,
    {
        Vec2 { x: x as i64 * SUBPIXELS, y: y as i64 * SUBPIXELS }
    }
}

/// An axis-aligned rectangle in whole pixels, closed on all four edges.
#[derive(Clone, Copy, Debug, PartialEq, Eq, Structural)]
pub struct Dim {
    pub x: i32,
    pub y: i32,
    pub width: i32,
    pub height: i32,
}

impl Dim {
    /// A rectangle of non-negative size whose far edges are `i32` values.
    pub open spec fn wf(self) -> bool {
        &&& self.width >= 0
        &&& self.height >= 0
        &&& self.x + self.width <= i32::MAX
        &&& self.y + self.height <= i32::MAX
    }

    /// Whether the fixed-point point `pos` lies in the rectangle, edges included.
    pub open spec fn contains(self, pos: Vec2) -> bool {
        &&& self.x * SUBPIXELS <= pos.x <= (self.x + self.width) * SUBPIXELS
        &&& self.y * SUBPIXELS <= pos.y <= (self.y + self.height) * SUBPIXELS
    }

    pub fn new(x: i32, y: i32, width: i32, height: i32) -> (r: Dim)
        ensures
            r == (Dim { x, y, width, height }),
    {
        Dim { x, y, width, height }
    }

    pub fn in_boundary(&self, pos: Vec2) -> (r: bool)
        ensures
            r == self.contains(pos),
    {
        let left = self.x as i64 * SUBPIXELS;
        let right = (self.x as i64 + self.width as i64) * SUBPIXELS;
        let top = self.y as i64 * SUBPIXELS;
        let bottom = (self.y as i64 + self.height as i64) * SUBPIXELS;
        left <= pos.x && pos.x <= right && top <= pos.y && pos.y <= bottom
    }
}

} // verus!
