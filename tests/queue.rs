use bouncyquencer::event::{TimedMidiMessage, TimedMidiMessageType};
use bouncyquencer::queue::EventQueue;

fn on_at(note: u8, due_at: u64) -> TimedMidiMessage {
    TimedMidiMessage { kind: TimedMidiMessageType::NoteOn, note, channel: 1, velocity: 100, due_at }
}

#[test]
fn empty_queue_has_nothing_due() {
    let mut q = EventQueue::new();
    assert!(q.is_empty());
    assert_eq!(q.len(), 0);
    assert_eq!(q.peek(), None);
    assert_eq!(q.pop_if_due(u64::MAX), None);
}

#[test]
fn earliest_comes_out_first() {
    let mut q = EventQueue::new();
    q.push(on_at(1, 300));
    q.push(on_at(2, 100));
    q.push(on_at(3, 200));
    q.push(on_at(4, 50));
    assert_eq!(q.len(), 4);
    assert_eq!(q.pop_if_due(1000).map(|m| m.due_at), Some(50));
    assert_eq!(q.pop_if_due(1000).map(|m| m.due_at), Some(100));
    assert_eq!(q.pop_if_due(1000).map(|m| m.due_at), Some(200));
    assert_eq!(q.pop_if_due(1000).map(|m| m.due_at), Some(300));
    assert!(q.is_empty());
}

#[test]
fn peek_then_pop_before_due_leaves_queue() {
    let mut q = EventQueue::new();
    q.push(on_at(60, 500));
    q.push(on_at(61, 700));
    let seen = *q.peek().unwrap();
    assert_eq!(seen, on_at(60, 500));
    assert_eq!(q.pop_if_due(499), None);
    assert_eq!(q.len(), 2);
    assert_eq!(q.peek(), Some(&seen));
}

#[test]
fn peek_then_pop_when_due_removes_that_message() {
    let mut q = EventQueue::new();
    q.push(on_at(61, 700));
    q.push(on_at(60, 500));
    let seen = *q.peek().unwrap();
    assert_eq!(q.pop_if_due(500), Some(seen));
    assert_eq!(q.len(), 1);
    assert_eq!(q.peek(), Some(&on_at(61, 700)));
}

#[test]
fn equal_due_times_all_come_out() {
    let mut q = EventQueue::new();
    q.push(on_at(1, 10));
    q.push(on_at(2, 10));
    q.push(on_at(3, 5));
    assert_eq!(q.pop_if_due(10).map(|m| m.note), Some(3));
    let a = q.pop_if_due(10).unwrap();
    let b = q.pop_if_due(10).unwrap();
    assert_eq!(a.due_at, 10);
    assert_eq!(b.due_at, 10);
    let mut notes = vec![a.note, b.note];
    notes.sort();
    assert_eq!(notes, vec![1, 2]);
    assert!(q.is_empty());
}

#[test]
fn many_messages_come_out_in_due_order() {
    let mut q = EventQueue::new();
    let mut expected = Vec::new();
    let mut t: u64 = 7;
    for i in 0..200u64 {
        t = (t * 31 + 17) % 1009;
        q.push(on_at((i % 128) as u8, t));
        expected.push(t);
    }
    expected.sort();
    assert_eq!(q.len(), 200);
    let mut out = Vec::new();
    while let Some(m) = q.pop_if_due(1009) {
        out.push(m.due_at);
    }
    assert_eq!(out, expected);
}

#[test]
fn pop_stops_at_the_first_message_not_due() {
    let mut q = EventQueue::new();
    for due in [40u64, 10, 30, 20] {
        q.push(on_at(1, due));
    }
    assert_eq!(q.pop_if_due(25).map(|m| m.due_at), Some(10));
    assert_eq!(q.pop_if_due(25).map(|m| m.due_at), Some(20));
    assert_eq!(q.pop_if_due(25), None);
    assert_eq!(q.len(), 2);
}
