//! What each wall plays when the ball hits it, and the scheduling of the
//! resulting note-on/note-off pairs.

use vstd::prelude::*;
use vstd::multiset::Multiset;
use crate::collision::{Edge, FiredEdges};
use crate::event::{on_off_pair, TimedMidiMessage, TimedMidiMessageType};
use crate::queue::EventQueue;

verus! {

/// The note number that marks a wall as silent.
pub const DISABLED_NOTE: u8 = 128;

/// What one wall plays. A note number above 127 silences the wall.
#[derive(Clone, Copy, Debug, PartialEq, Eq, Structural)]
pub struct EdgeConfig {
    pub note_id: u8,
    pub velocity: u8,
    /// MIDI channel, numbered from 1.
    pub channel: u8,
    /// Milliseconds between the note-on and the note-off.
    pub duration_ms: u64,
}

impl EdgeConfig {
    /// The wall plays a note when hit.
    pub open spec fn enabled(self) -> bool {
        self.note_id <= 127
    }

    /// Both messages of a pair started at `now` have a due time in `u64`.
    pub open spec fn fits_at(self, now: u64) -> bool {
        now + self.duration_ms <= u64::MAX
    }

    /// Whether a hit on this wall produces messages.
    pub fn is_enabled(&self) -> (r: bool)
        ensures
            r == self.enabled(),
    {
        self.note_id <= 127
    }

    /// The pair of messages a hit at `now` produces.
    pub open spec fn pair_at(self, now: u64) -> (TimedMidiMessage, TimedMidiMessage) {
        on_off_pair(self.channel, self.note_id, self.velocity, now, self.duration_ms)
    }
}

/// The messages of `m` after a hit at `now` on a wall configured by `c`.
pub open spec fn scheduled(
    m: Multiset<TimedMidiMessage>,
    c: EdgeConfig,
    now: u64,
) -> Multiset<TimedMidiMessage> {
    if c.enabled() {
        m.insert(c.pair_at(now).0).insert(c.pair_at(now).1)
    } else {
        m
    }
}

/// The configuration of all four walls.
#[derive(Clone, Copy, Debug, PartialEq, Eq, Structural)]
pub struct Borders {
    pub top: EdgeConfig,
    pub right: EdgeConfig,
    pub bottom: EdgeConfig,
    pub left: EdgeConfig,
}

impl Borders {
    /// The configuration of wall `e`.
    pub open spec fn config(self, e: Edge) -> EdgeConfig {
        match e {
            Edge::Top => self.top,
            Edge::Right => self.right,
            Edge::Bottom => self.bottom,
            Edge::Left => self.left,
        }
    }

    /// Every wall's pair started at `now` has due times in `u64`.
    pub open spec fn all_fit_at(self, now: u64) -> bool {
        self.top.fits_at(now) && self.right.fits_at(now) && self.bottom.fits_at(now)
            && self.left.fits_at(now)
    }

    /// Whether every wall's pair started at `now` has due times in `u64`.
    pub fn fit_at(&self, now: u64) -> (r: bool)
        ensures
            r == self.all_fit_at(now),
    {
        self.top.duration_ms <= u64::MAX - now && self.right.duration_ms <= u64::MAX - now
            && self.bottom.duration_ms <= u64::MAX - now && self.left.duration_ms <= u64::MAX
            - now
    }

    /// The configuration of wall `e`.
    pub fn get(&self, e: Edge) -> (r: EdgeConfig)
        ensures
            r == self.config(e),
    {
        match e {
            Edge::Top => self.top,
            Edge::Right => self.right,
            Edge::Bottom => self.bottom,
            Edge::Left => self.left,
        }
    }

    /// Replaces the configuration of wall `e`.
    pub fn set(&mut self, e: Edge, c: EdgeConfig)
        ensures
            final(self).config(e) == c,
            forall|o: Edge| o != e ==> final(self).config(o) == old(self).config(o),
    {
        match e {
            Edge::Top => self.top = c,
            Edge::Right => self.right = c,
            Edge::Bottom => self.bottom = c,
            Edge::Left => self.left = c,
        }
    }
}

/// The messages of `m` after the walls in `fired` were hit at `now`, taken
/// in the order top, right, bottom, left.
pub open spec fn scheduled_all(
    m: Multiset<TimedMidiMessage>,
    b: Borders,
    fired: FiredEdges,
    now: u64,
) -> Multiset<TimedMidiMessage> {
    let m1 = if fired.top {
        scheduled(m, b.top, now)
    } else {
        m
    };
    let m2 = if fired.right {
        scheduled(m1, b.right, now)
    } else {
        m1
    };
    let m3 = if fired.bottom {
        scheduled(m2, b.bottom, now)
    } else {
        m2
    };
    if fired.left {
        scheduled(m3, b.left, now)
    } else {
        m3
    }
}

/// Reacts to a hit at `now` on a wall configured by `c`: an enabled wall
/// queues its note-on at `now` and its note-off `duration_ms` later, both or
/// neither; a silenced wall queues nothing. Returns whether a pair was
/// queued.
pub fn schedule_edge(queue: &mut EventQueue, c: &EdgeConfig, now: u64) -> (r: bool)
    requires
        old(queue).wf(),
        c.fits_at(now),
    ensures
        final(queue).wf(),
        r == c.enabled(),
        final(queue).events() == scheduled(old(queue).events(), *c, now),
{
    if !c.is_enabled() {
        return false;
    }
    let (on, off) = TimedMidiMessage::create_on_off(
        c.channel,
        c.note_id,
        c.velocity,
        now,
        c.duration_ms,
    );
    queue.push(on);
    queue.push(off);
    true
}

/// Queues the pairs of every enabled wall in `fired`.
pub fn schedule_fired(queue: &mut EventQueue, b: &Borders, fired: &FiredEdges, now: u64)
    requires
        old(queue).wf(),
        b.all_fit_at(now),
    ensures
        final(queue).wf(),
        final(queue).events() == scheduled_all(old(queue).events(), *b, *fired, now),
{
    if fired.top {
        schedule_edge(queue, &b.top, now);
    }
    if fired.right {
        schedule_edge(queue, &b.right, now);
    }
    if fired.bottom {
        schedule_edge(queue, &b.bottom, now);
    }
    if fired.left {
        schedule_edge(queue, &b.left, now);
    }
}

/// A hit on an enabled wall queues exactly two messages, a note-on and a
/// note-off on the same note and channel, due `duration_ms` apart.
pub proof fn lemma_enabled_edge_queues_pair(m: Multiset<TimedMidiMessage>, c: EdgeConfig, now: u64)
    requires
        c.enabled(),
        c.fits_at(now),
    ensures
        scheduled(m, c, now).len() == m.len() + 2,
        scheduled(m, c, now) == m.insert(c.pair_at(now).0).insert(c.pair_at(now).1),
        c.pair_at(now).1.due_at == c.pair_at(now).0.due_at + c.duration_ms,
        c.pair_at(now).0.due_at == now,
        c.pair_at(now).0.kind == TimedMidiMessageType::NoteOn,
        c.pair_at(now).1.kind == TimedMidiMessageType::NoteOff,
        c.pair_at(now).0.note == c.pair_at(now).1.note == c.note_id,
        c.pair_at(now).0.channel == c.pair_at(now).1.channel == c.channel,
{
    broadcast use vstd::multiset::group_multiset_axioms;
}

/// A hit on a silenced wall queues nothing.
pub proof fn lemma_disabled_edge_queues_nothing(m: Multiset<TimedMidiMessage>, c: EdgeConfig, now: u64)
    requires
        !c.enabled(),
    ensures
        scheduled(m, c, now) == m,
{
}

} // verus!
