//! A coloured circle at a position.

use vstd::prelude::*;
use crate::geometry::{Point2, Rgba, UNIT};
use crate::random::random_between;

verus! {

/// A circle: where it is, how it is coloured and how large it is.
#[derive(Clone, Copy, Debug, PartialEq, Eq, Structural)]
pub struct Circle {
    pub position: Point2,
    pub color: Rgba,
    pub radius: i32,
}

/// Largest radius (exclusive) of a random circle.
pub const RANDOM_RADIUS_END: i32 = 15 * UNIT;

/// Largest coordinate (exclusive) of a random circle's centre.
pub const RANDOM_POSITION_END: i32 = 100 * UNIT;

impl Circle {
    /// A circle is well formed when its radius is positive.
    pub open spec fn wf(self) -> bool {
        self.radius > 0
    }

    /// A circle of radius one screen unit and colour `c` at the origin.
    pub fn new(c: Rgba) -> (r: Circle)
        ensures
            r == (Circle { position: Point2 { x: 0, y: 0 }, color: c, radius: UNIT }),
            r.wf(),
    {
        Circle { position: Point2 { x: 0, y: 0 }, color: c, radius: UNIT }
    }

    /// A circle with a random radius in `[1, 15)` screen units, a centre
    /// whose coordinates lie in `[radius, 100)` screen units and a random
    /// opaque colour.
    pub fn random() -> (r: Circle)
        ensures
            r.wf(),
            UNIT <= r.radius < RANDOM_RADIUS_END,
            r.radius <= r.position.x < RANDOM_POSITION_END,
            r.radius <= r.position.y < RANDOM_POSITION_END,
            r.color.a == 255,
    {
        let radius = random_between(UNIT, RANDOM_RADIUS_END);
        let x = random_between(radius, RANDOM_POSITION_END);
        let y = random_between(radius, RANDOM_POSITION_END);
        let red = random_between(0, 256) as u8;
        let green = random_between(0, 256) as u8;
        let blue = random_between(0, 256) as u8;
        Circle { position: Point2 { x, y }, radius, color: Rgba { r: red, g: green, b: blue, a: 255 } }
    }

    /// Moves the circle to `pos`.
    pub fn set_position(&mut self, pos: Point2)
        ensures
            *final(self) == (Circle { position: pos, ..*old(self) }),
    {
        self.position = pos;
    }

    /// The circle's centre.
    pub fn get_position(&self) -> (r: Point2)
        ensures
            r == self.position,
    {
        self.position
    }
}

} // verus!
