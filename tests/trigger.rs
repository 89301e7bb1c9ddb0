use bouncyquencer::collision::{Edge, FiredEdges};
use bouncyquencer::event::{TimedMidiMessage, TimedMidiMessageType};
use bouncyquencer::queue::EventQueue;
use bouncyquencer::trigger::{schedule_edge, schedule_fired, Borders, EdgeConfig, DISABLED_NOTE};

fn config(note_id: u8) -> EdgeConfig {
    EdgeConfig { note_id, velocity: 100, channel: 1, duration_ms: 200 }
}

fn drain(q: &mut EventQueue) -> Vec<TimedMidiMessage> {
    let mut out = Vec::new();
    while let Some(m) = q.pop_if_due(u64::MAX) {
        out.push(m);
    }
    out
}

#[test]
fn enabled_edge_queues_a_pair() {
    let mut q = EventQueue::new();
    assert!(schedule_edge(&mut q, &config(60), 1000));
    assert_eq!(q.len(), 2);
    let all = drain(&mut q);
    assert_eq!(all[0], TimedMidiMessage {
        kind: TimedMidiMessageType::NoteOn,
        note: 60,
        channel: 1,
        velocity: 100,
        due_at: 1000,
    });
    assert_eq!(all[1], TimedMidiMessage {
        kind: TimedMidiMessageType::NoteOff,
        note: 60,
        channel: 1,
        velocity: 0,
        due_at: 1200,
    });
}

#[test]
fn disabled_edge_queues_nothing() {
    let mut q = EventQueue::new();
    assert!(!config(DISABLED_NOTE).is_enabled());
    assert!(!schedule_edge(&mut q, &config(DISABLED_NOTE), 1000));
    assert!(!schedule_edge(&mut q, &config(255), 1000));
    assert!(q.is_empty());
}

#[test]
fn highest_note_is_enabled() {
    let mut q = EventQueue::new();
    assert!(config(127).is_enabled());
    assert!(schedule_edge(&mut q, &config(127), 0));
    assert_eq!(q.len(), 2);
}

#[test]
fn fired_walls_each_queue_their_pair() {
    let mut b = Borders { top: config(60), right: config(62), bottom: config(DISABLED_NOTE), left: config(65) };
    b.set(Edge::Left, EdgeConfig { note_id: 67, velocity: 10, channel: 2, duration_ms: 50 });
    assert_eq!(b.get(Edge::Left).note_id, 67);
    assert_eq!(b.get(Edge::Top).note_id, 60);
    let fired = FiredEdges { top: true, right: false, bottom: true, left: true };
    let mut q = EventQueue::new();
    schedule_fired(&mut q, &b, &fired, 10);
    assert_eq!(q.len(), 4);
    let all = drain(&mut q);
    let mut notes: Vec<(u8, u64)> = all.iter().map(|m| (m.note, m.due_at)).collect();
    notes.sort();
    assert_eq!(notes, vec![(60, 10), (60, 210), (67, 10), (67, 60)]);
}

#[test]
fn fit_at_detects_overflowing_note_off() {
    let mut b = Borders { top: config(60), right: config(62), bottom: config(64), left: config(65) };
    assert!(b.fit_at(u64::MAX - 200));
    assert!(!b.fit_at(u64::MAX - 199));
    b.set(Edge::Bottom, EdgeConfig { duration_ms: u64::MAX, ..config(64) });
    assert!(b.fit_at(0));
    assert!(!b.fit_at(1));
}
