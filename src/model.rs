//! The simulation context: the ball, its arena, the wall configuration and
//! the queue of pending messages, advanced one tick at a time.

use vstd::prelude::*;
use vstd::multiset::Multiset;
use vstd::string::StringExecFns;
use crate::ball::{Ball, negatable};
use crate::collision::{detect, fired_edges, reflected, FiredEdges};
use crate::event::{encoding, EncodeError, TimedMidiMessage};
use crate::geometry::{Arena, Point2, Rgba, UNIT};
use crate::queue::EventQueue;
use crate::trigger::{schedule_fired, scheduled_all, Borders, EdgeConfig, DISABLED_NOTE};

verus! {

/// What a saved project holds: where the ball is, how it moves, and the
/// project's name.
#[derive(Debug, PartialEq, Eq)]
pub struct SaveState {
    pub ball_position_x: i32,
    pub ball_position_y: i32,
    pub ball_velocity_x: i32,
    pub ball_velocity_y: i32,
    pub project_name: String,
}

/// A message taken off the queue on a tick, with its wire bytes or the
/// reason it has none.
#[derive(Debug)]
pub struct Delivery {
    pub message: TimedMidiMessage,
    pub wire: Result<Vec<u8>, EncodeError>,
}

/// The whole state the driver threads from tick to tick.
pub struct Model {
    pub arena: Arena,
    pub ball: Ball,
    pub borders: Borders,
    pub queue: EventQueue,
    /// The last frozen state, waiting to be written out.
    pub state: Option<SaveState>,
    /// Name under which the project is saved and loaded.
    pub project_name: String,
}

/// Half the side of the arena a new model starts with.
pub const INITIAL_HALF_EXTENT: i32 = 100 * UNIT;

/// Horizontal centre of the arena a new model starts with.
pub const INITIAL_CENTER_X: i32 = 300 * UNIT;

/// Radius of the ball a new model starts with.
pub const INITIAL_RADIUS: i32 = 15 * UNIT;

/// How a wall is configured in a new model: silent, velocity 64, 100 ms,
/// channel 1.
pub open spec fn initial_edge() -> EdgeConfig {
    EdgeConfig { note_id: DISABLED_NOTE, velocity: 64, channel: 1, duration_ms: 100 }
}

/// Where the ball is after moving by its velocity.
pub open spec fn advanced(b: Ball) -> Point2 {
    Point2 {
        x: (b.position().x + b.velocity().x) as i32,
        y: (b.position().y + b.velocity().y) as i32,
    }
}

/// `e` is in `m` and nothing in `m` is due earlier.
pub open spec fn is_earliest(m: Multiset<TimedMidiMessage>, e: TimedMidiMessage) -> bool {
    m.contains(e) && forall|x: TimedMidiMessage| #[trigger] m.contains(x) ==> e.due_at <= x.due_at
}

impl Model {
    /// The ball and the queue are well formed.
    pub open spec fn wf(&self) -> bool {
        self.ball.wf() && self.queue.wf()
    }

    /// The walls the ball hits on the next tick.
    pub open spec fn next_fired(&self) -> FiredEdges {
        fired_edges(advanced(self.ball), self.ball.radius() as int, self.arena)
    }

    /// The queued messages once the next tick at `now` has scheduled its
    /// hits, before anything is sent.
    pub open spec fn next_pending(&self, now: u64) -> Multiset<TimedMidiMessage> {
        scheduled_all(self.queue.events(), self.borders, self.next_fired(), now)
    }

    /// The starting state: a 200 by 200 arena centred at (300, 0), a ball of
    /// radius 15 at rest in its centre, every wall silent, nothing queued.
    pub fn new() -> (m: Model)
        ensures
            m.wf(),
            m.arena == (Arena {
                center: Point2 { x: INITIAL_CENTER_X, y: 0 },
                half_width: INITIAL_HALF_EXTENT,
                half_height: INITIAL_HALF_EXTENT,
            }),
            m.ball.position() == m.arena.center,
            m.ball.velocity() == (Point2 { x: 0, y: 0 }),
            m.ball.radius() == INITIAL_RADIUS,
            m.ball.color() == (Rgba { r: 213, g: 22, b: 87, a: 255 }),
            m.borders == (Borders {
                top: initial_edge(),
                right: initial_edge(),
                bottom: initial_edge(),
                left: initial_edge(),
            }),
            m.queue.events().len() == 0,
            m.state is None,
            m.project_name@ == "type project name ..."@,
    {
        let center = Point2 { x: INITIAL_CENTER_X, y: 0 };
        let mut ball = Ball::new();
        ball.set_color(Rgba { r: 213, g: 22, b: 87, a: 255 });
        ball.set_position(center);
        ball.set_radius(INITIAL_RADIUS);
        let edge = EdgeConfig { note_id: DISABLED_NOTE, velocity: 64, channel: 1, duration_ms: 100 };
        Model {
            arena: Arena {
                center,
                half_width: INITIAL_HALF_EXTENT,
                half_height: INITIAL_HALF_EXTENT,
            },
            ball,
            borders: Borders { top: edge, right: edge, bottom: edge, left: edge },
            queue: EventQueue::new(),
            state: None,
            project_name: String::from_str("type project name ..."),
        }
    }

    /// Records the ball's position and velocity and the project name, to be
    /// written out.
    pub fn freeze_state(&mut self)
        ensures
            final(self).state == Some(
                SaveState {
                    ball_position_x: old(self).ball.position().x,
                    ball_position_y: old(self).ball.position().y,
                    ball_velocity_x: old(self).ball.velocity().x,
                    ball_velocity_y: old(self).ball.velocity().y,
                    project_name: old(self).project_name,
                },
            ),
            final(self).arena == old(self).arena,
            final(self).ball == old(self).ball,
            final(self).borders == old(self).borders,
            final(self).queue == old(self).queue,
            final(self).project_name == old(self).project_name,
    {
        let pos = self.ball.get_position();
        let v = self.ball.get_velocity();
        let s = SaveState {
            ball_position_x: pos.x,
            ball_position_y: pos.y,
            ball_velocity_x: v.x,
            ball_velocity_y: v.y,
            project_name: self.project_name.clone(),
        };
        self.state = Some(s);
    }

    /// Puts the ball where `state` says, with the velocity it says, and
    /// clears the frozen state. Radius and colour stay.
    pub fn overwrite_state(&mut self, state: SaveState)
        requires
            old(self).wf(),
            negatable(Point2 { x: state.ball_velocity_x, y: state.ball_velocity_y }),
        ensures
            final(self).wf(),
            final(self).ball.position() == (Point2 {
                x: state.ball_position_x,
                y: state.ball_position_y,
            }),
            final(self).ball.velocity() == (Point2 {
                x: state.ball_velocity_x,
                y: state.ball_velocity_y,
            }),
            final(self).ball.radius() == old(self).ball.radius(),
            final(self).ball.color() == old(self).ball.color(),
            final(self).state is None,
            final(self).arena == old(self).arena,
            final(self).borders == old(self).borders,
            final(self).queue == old(self).queue,
            final(self).project_name == old(self).project_name,
    {
        self.ball.set_position(Point2 { x: state.ball_position_x, y: state.ball_position_y });
        self.ball.set_velocity(Point2 { x: state.ball_velocity_x, y: state.ball_velocity_y });
        self.state = None;
    }

    /// One step of the simulation at `now` milliseconds: the ball moves by
    /// its velocity, bounces off the walls it went past, every enabled wall
    /// it hit queues its note pair, and then, when the output is ready, at
    /// most one message that is due is taken off the queue and encoded.
    pub fn tick(&mut self, now: u64, output_ready: bool) -> (r: Option<Delivery>)
        requires
            old(self).wf(),
            old(self).ball.can_advance_spec(),
            old(self).borders.all_fit_at(now),
        ensures
            final(self).wf(),
            final(self).ball.position() == advanced(old(self).ball),
            final(self).ball.velocity() == reflected(
                old(self).ball.velocity(),
                old(self).next_fired(),
            ),
            final(self).ball.radius() == old(self).ball.radius(),
            final(self).ball.color() == old(self).ball.color(),
            final(self).arena == old(self).arena,
            final(self).borders == old(self).borders,
            final(self).state == old(self).state,
            final(self).project_name == old(self).project_name,
            match r {
                Some(d) => {
                    &&& output_ready
                    &&& d.message.due_at <= now
                    &&& is_earliest(old(self).next_pending(now), d.message)
                    &&& final(self).queue.events() == old(self).next_pending(now).remove(d.message)
                    &&& match d.wire {
                        Ok(bytes) => encoding(d.message) == Ok::<Seq<u8>, EncodeError>(bytes@),
                        Err(e) => encoding(d.message) == Err::<Seq<u8>, EncodeError>(e),
                    }
                },
                None => {
                    &&& final(self).queue.events() == old(self).next_pending(now)
                    &&& output_ready ==> forall|x: TimedMidiMessage| #[trigger]
                        old(self).next_pending(now).contains(x) ==> now < x.due_at
                },
            },
    {
        self.ball.advance();
        let fired = detect(&mut self.ball, &self.arena);
        schedule_fired(&mut self.queue, &self.borders, &fired, now);
        if !output_ready {
            return None;
        }
        proof {
            self.queue.lemma_next_due_is_earliest();
        }
        match self.queue.pop_if_due(now) {
            Some(message) => {
                let wire = message.to_bytes();
                Some(Delivery { message, wire })
            },
            None => None,
        }
    }

    /// Replaces the velocity of the ball.
    pub fn set_ball_velocity(&mut self, v: Point2)
        requires
            old(self).wf(),
            negatable(v),
        ensures
            final(self).wf(),
            final(self).ball.velocity() == v,
            final(self).ball.same_but_velocity(old(self).ball),
            final(self).arena == old(self).arena,
            final(self).borders == old(self).borders,
            final(self).queue == old(self).queue,
    {
        self.ball.set_velocity(v);
    }
}

} // verus!
