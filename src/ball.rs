//! The moving point: a circle with a velocity.

use vstd::prelude::*;
use crate::circle::Circle;
use crate::geometry::{Point2, Rgba, UNIT};
use crate::random::random_between;

verus! {

/// Smallest component (inclusive) of a random velocity.
pub const RANDOM_SPEED_START: i32 = -10 * UNIT;

/// Largest component (exclusive) of a random velocity.
pub const RANDOM_SPEED_END: i32 = 10 * UNIT;

/// A velocity component can be negated without leaving `i32`.
pub open spec fn negatable(v: Point2) -> bool {
    v.x != i32::MIN && v.y != i32::MIN
}

/// Whether both components of `v` can be negated.
pub fn can_reflect(v: Point2) -> (r: bool)
    ensures
        r == negatable(v),
{
    v.x != i32::MIN && v.y != i32::MIN
}

/// A ball: a circle that moves by its velocity once per tick.
#[derive(Clone, Copy, Debug)]
pub struct Ball {
    circle: Circle,
    velocity: Point2,
}

impl Ball {
    /// Where the centre of the ball is.
    pub closed spec fn position(self) -> Point2 {
        self.circle.position
    }

    /// How far the ball moves per tick.
    pub closed spec fn velocity(self) -> Point2 {
        self.velocity
    }

    /// The ball's radius.
    pub closed spec fn radius(self) -> i32 {
        self.circle.radius
    }

    /// The ball's colour.
    pub closed spec fn color(self) -> Rgba {
        self.circle.color
    }

    /// A ball is well formed when its radius is positive and each velocity
    /// component can be reflected.
    pub open spec fn wf(self) -> bool {
        self.radius() > 0 && negatable(self.velocity())
    }

    /// The two balls differ at most in their velocity.
    pub open spec fn same_but_velocity(self, other: Ball) -> bool {
        self.position() == other.position() && self.radius() == other.radius() && self.color()
            == other.color()
    }

    /// A white ball of radius one screen unit, at rest at the origin.
    pub fn new() -> (b: Ball)
        ensures
            b.wf(),
            b.position() == (Point2 { x: 0, y: 0 }),
            b.velocity() == (Point2 { x: 0, y: 0 }),
            b.radius() == UNIT,
            b.color() == (Rgba { r: 255, g: 255, b: 255, a: 255 }),
    {
        Ball {
            circle: Circle::new(Rgba { r: 255, g: 255, b: 255, a: 255 }),
            velocity: Point2 { x: 0, y: 0 },
        }
    }

    /// A ball on a random circle (see `Circle::random`) with each velocity
    /// component drawn from `[-10, 10)`
    /// screen units per tick.
    pub fn random() -> (b: Ball)
        ensures
            b.wf(),
            RANDOM_SPEED_START <= b.velocity().x < RANDOM_SPEED_END,
            RANDOM_SPEED_START <= b.velocity().y < RANDOM_SPEED_END,
    {
        let x = random_between(RANDOM_SPEED_START, RANDOM_SPEED_END);
        let y = random_between(RANDOM_SPEED_START, RANDOM_SPEED_END);
        Ball { circle: Circle::random(), velocity: Point2 { x, y } }
    }

    /// The current velocity.
    pub fn get_velocity(&self) -> (r: Point2)
        ensures
            r == self.velocity(),
    {
        self.velocity
    }

    /// Replaces the velocity.
    pub fn set_velocity(&mut self, v: Point2)
        requires
            old(self).wf(),
            negatable(v),
        ensures
            final(self).wf(),
            final(self).velocity() == v,
            final(self).same_but_velocity(*old(self)),
    {
        self.velocity = v;
    }

    /// Draws a new velocity with each component in `[-10, 10)` screen units
    /// per tick.
    pub fn randomise_velocity(&mut self)
        requires
            old(self).wf(),
        ensures
            final(self).wf(),
            final(self).same_but_velocity(*old(self)),
            RANDOM_SPEED_START <= final(self).velocity().x < RANDOM_SPEED_END,
            RANDOM_SPEED_START <= final(self).velocity().y < RANDOM_SPEED_END,
    {
        let x = random_between(RANDOM_SPEED_START, RANDOM_SPEED_END);
        let y = random_between(RANDOM_SPEED_START, RANDOM_SPEED_END);
        self.set_velocity(Point2 { x, y });
    }

    /// Replaces the radius, which must be positive.
    pub fn set_radius(&mut self, r: i32)
        requires
            old(self).wf(),
            r > 0,
        ensures
            final(self).wf(),
            final(self).radius() == r,
            final(self).position() == old(self).position(),
            final(self).velocity() == old(self).velocity(),
            final(self).color() == old(self).color(),
    {
        self.circle.radius = r;
    }

    /// The current radius.
    pub fn get_radius(&self) -> (r: i32)
        ensures
            r == self.radius(),
    {
        self.circle.radius
    }

    /// Moves the ball to `p`.
    pub fn set_position(&mut self, p: Point2)
        requires
            old(self).wf(),
        ensures
            final(self).wf(),
            final(self).position() == p,
            final(self).velocity() == old(self).velocity(),
            final(self).radius() == old(self).radius(),
            final(self).color() == old(self).color(),
    {
        self.circle.set_position(p);
    }

    /// The current position of the centre.
    pub fn get_position(&self) -> (r: Point2)
        ensures
            r == self.position(),
    {
        self.circle.get_position()
    }

    /// Replaces the colour.
    pub fn set_color(&mut self, c: Rgba)
        requires
            old(self).wf(),
        ensures
            final(self).wf(),
            final(self).color() == c,
            final(self).position() == old(self).position(),
            final(self).velocity() == old(self).velocity(),
            final(self).radius() == old(self).radius(),
    {
        self.circle.color = c;
    }

    /// The current colour.
    pub fn get_color(&self) -> (r: Rgba)
        ensures
            r == self.color(),
    {
        self.circle.color
    }

    /// The position one tick ahead stays within `i32`.
    pub open spec fn can_advance_spec(self) -> bool {
        i32::MIN <= self.position().x + self.velocity().x <= i32::MAX && i32::MIN
            <= self.position().y + self.velocity().y <= i32::MAX
    }

    /// Whether `advance` can move the ball without leaving `i32`.
    pub fn can_advance(&self) -> (r: bool)
        ensures
            r == self.can_advance_spec(),
    {
        let x = self.circle.position.x as i64 + self.velocity.x as i64;
        let y = self.circle.position.y as i64 + self.velocity.y as i64;
        i32::MIN as i64 <= x && x <= i32::MAX as i64 && i32::MIN as i64 <= y && y <= i32::MAX as i64
    }

    /// Moves the ball by its velocity.
    pub fn advance(&mut self)
        requires
            old(self).wf(),
            old(self).can_advance_spec(),
        ensures
            final(self).wf(),
            final(self).position().x == old(self).position().x + old(self).velocity().x,
            final(self).position().y == old(self).position().y + old(self).velocity().y,
            final(self).velocity() == old(self).velocity(),
            final(self).radius() == old(self).radius(),
            final(self).color() == old(self).color(),
    {
        let p = Point2 {
            x: self.circle.position.x + self.velocity.x,
            y: self.circle.position.y + self.velocity.y,
        };
        self.circle.set_position(p);
    }
}

} // verus!
