//! Plain geometric values: points, colours and the arena rectangle.

use vstd::prelude::*;

verus! {

/// Lengths are counted in thousandths of a screen unit: `UNIT` stands for one.
pub const UNIT: i32 = 1000;

/// A point or a vector in the plane, in thousandths of a screen unit; `y`
/// grows upwards.
#[derive(Clone, Copy, Debug, PartialEq, Eq, Structural)]
pub struct Point2 {
    pub x: i32,
    pub y: i32,
}

/// Builds a point from its two coordinates.
pub fn pt2(x: i32, y: i32) -> (r: Point2)
    ensures
        r == (Point2 { x, y }),
{
    Point2 { x, y }
}

/// A colour with 8-bit channels; 255 stands for full intensity.
#[derive(Clone, Copy, Debug, PartialEq, Eq, Structural)]
pub struct Rgba {
    pub r: u8,
    pub g: u8,
    pub b: u8,
    pub a: u8,
}

impl Rgba {
    /// Builds a colour from its four channels.
    pub fn new(r: u8, g: u8, b: u8, a: u8) -> (c: Rgba)
        ensures
            c == (Rgba { r, g, b, a }),
    {
        Rgba { r, g, b, a }
    }
}

/// The rectangle the ball bounces in, given by its centre and half extents.
#[derive(Clone, Copy, Debug, PartialEq, Eq, Structural)]
pub struct Arena {
    pub center: Point2,
    pub half_width: i32,
    pub half_height: i32,
}

impl Arena {
    /// Builds an arena from its centre and half extents.
    pub fn new(center: Point2, half_width: i32, half_height: i32) -> (r: Arena)
        ensures
            r == (Arena { center, half_width, half_height }),
    {
        Arena { center, half_width, half_height }
    }

    /// The x of the right wall.
    pub open spec fn right_bound(self) -> int {
        self.center.x + self.half_width
    }

    /// The x of the left wall.
    pub open spec fn left_bound(self) -> int {
        self.center.x - self.half_width
    }

    /// The y of the top wall.
    pub open spec fn top_bound(self) -> int {
        self.center.y + self.half_height
    }

    /// The y of the bottom wall.
    pub open spec fn bottom_bound(self) -> int {
        self.center.y - self.half_height
    }
}

} // verus!
