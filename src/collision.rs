//! Collision of the ball with the arena walls, and its reflection.

use vstd::prelude::*;
use vstd::math::abs;
use crate::ball::{Ball, negatable};
use crate::geometry::{Arena, Point2};

verus! {

/// One of the four walls of the arena.
#[derive(Clone, Copy, Debug, PartialEq, Eq, Structural)]
pub enum Edge {
    Top,
    Right,
    Bottom,
    Left,
}

/// Which walls the ball went past on one tick.
#[derive(Clone, Copy, Debug, PartialEq, Eq, Structural)]
pub struct FiredEdges {
    pub top: bool,
    pub right: bool,
    pub bottom: bool,
    pub left: bool,
}

impl FiredEdges {
    /// Wall `e` is among the fired ones.
    pub open spec fn has(self, e: Edge) -> bool {
        match e {
            Edge::Top => self.top,
            Edge::Right => self.right,
            Edge::Bottom => self.bottom,
            Edge::Left => self.left,
        }
    }

    /// Whether wall `e` fired.
    pub fn contains(&self, e: Edge) -> (r: bool)
        ensures
            r == self.has(e),
    {
        match e {
            Edge::Top => self.top,
            Edge::Right => self.right,
            Edge::Bottom => self.bottom,
            Edge::Left => self.left,
        }
    }
}

/// Wall `e` fires when the ball's leading surface lies strictly beyond it.
pub open spec fn edge_fires(e: Edge, pos: Point2, radius: int, arena: Arena) -> bool {
    match e {
        Edge::Top => pos.y + radius > arena.top_bound(),
        Edge::Right => pos.x + radius > arena.right_bound(),
        Edge::Bottom => pos.y - radius < arena.bottom_bound(),
        Edge::Left => pos.x - radius < arena.left_bound(),
    }
}

/// The walls a ball at `pos` with radius `radius` has gone past.
pub open spec fn fired_edges(pos: Point2, radius: int, arena: Arena) -> FiredEdges {
    FiredEdges {
        top: edge_fires(Edge::Top, pos, radius, arena),
        right: edge_fires(Edge::Right, pos, radius, arena),
        bottom: edge_fires(Edge::Bottom, pos, radius, arena),
        left: edge_fires(Edge::Left, pos, radius, arena),
    }
}

/// The velocity after bouncing off the walls in `fired`: each component is
/// negated once when a wall across its axis fired.
pub open spec fn reflected(v: Point2, fired: FiredEdges) -> Point2 {
    Point2 {
        x: if fired.left || fired.right {
            -v.x
        } else {
            v.x as int
        } as i32,
        y: if fired.top || fired.bottom {
            -v.y
        } else {
            v.y as int
        } as i32,
    }
}

/// Finds the walls the ball has gone past and reflects its velocity off
/// them. Each component is negated at most once, even when the ball is past
/// both walls across that axis.
pub fn detect(ball: &mut Ball, arena: &Arena) -> (r: FiredEdges)
    requires
        old(ball).wf(),
    ensures
        r == fired_edges(old(ball).position(), old(ball).radius() as int, *arena),
        final(ball).wf(),
        final(ball).velocity() == reflected(old(ball).velocity(), r),
        final(ball).same_but_velocity(*old(ball)),
{
    let pos = ball.get_position();
    let radius = ball.get_radius() as i64;
    let x = pos.x as i64;
    let y = pos.y as i64;
    let cx = arena.center.x as i64;
    let cy = arena.center.y as i64;
    let hw = arena.half_width as i64;
    let hh = arena.half_height as i64;
    let fired = FiredEdges {
        top: y + radius > cy + hh,
        right: x + radius > cx + hw,
        bottom: y - radius < cy - hh,
        left: x - radius < cx - hw,
    };
    let v = ball.get_velocity();
    let vx = if fired.left || fired.right {
        -v.x
    } else {
        v.x
    };
    let vy = if fired.top || fired.bottom {
        -v.y
    } else {
        v.y
    };
    ball.set_velocity(Point2 { x: vx, y: vy });
    fired
}

/// Reflection keeps each speed: a component flips its sign exactly when a
/// wall across its axis fired, and its magnitude never changes.
pub proof fn lemma_reflection_keeps_speed(v: Point2, fired: FiredEdges)
    requires
        negatable(v),
    ensures
        reflected(v, fired).x == (if fired.left || fired.right {
            -v.x
        } else {
            v.x as int
        }),
        reflected(v, fired).y == (if fired.top || fired.bottom {
            -v.y
        } else {
            v.y as int
        }),
        abs(reflected(v, fired).x as int) == abs(v.x as int),
        abs(reflected(v, fired).y as int) == abs(v.y as int),
        negatable(reflected(v, fired)),
{
}

} // verus!
