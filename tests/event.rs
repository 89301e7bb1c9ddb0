use bouncyquencer::event::{EncodeError, TimedMidiMessage, TimedMidiMessageType};

fn message(kind: TimedMidiMessageType, channel: u8, note: u8, velocity: u8) -> TimedMidiMessage {
    TimedMidiMessage { kind, note, channel, velocity, due_at: 0 }
}

#[test]
fn create_on_off_pairs_messages() {
    let (on, off) = TimedMidiMessage::create_on_off(3, 64, 90, 1000, 250);
    assert_eq!(on, TimedMidiMessage {
        kind: TimedMidiMessageType::NoteOn,
        note: 64,
        channel: 3,
        velocity: 90,
        due_at: 1000,
    });
    assert_eq!(off, TimedMidiMessage {
        kind: TimedMidiMessageType::NoteOff,
        note: 64,
        channel: 3,
        velocity: 0,
        due_at: 1250,
    });
}

#[test]
fn start_and_stop_round_trip() {
    let (on, off) = TimedMidiMessage::create_on_off(1, 60, 100, 0, 200);
    assert_eq!(on.to_bytes(), Ok(vec![0x90, 60, 100]));
    assert_eq!(off.to_bytes(), Ok(vec![0x80, 60, 0]));
}

#[test]
fn channel_sixteen_uses_the_last_index() {
    let on = message(TimedMidiMessageType::NoteOn, 16, 127, 127);
    assert_eq!(on.to_bytes(), Ok(vec![0x9F, 127, 127]));
    let off = message(TimedMidiMessageType::NoteOff, 16, 0, 0);
    assert_eq!(off.to_bytes(), Ok(vec![0x8F, 0, 0]));
}

#[test]
fn note_off_velocity_is_always_zero() {
    let off = message(TimedMidiMessageType::NoteOff, 2, 61, 77);
    assert_eq!(off.to_bytes(), Ok(vec![0x81, 61, 0]));
}

#[test]
fn channel_zero_is_rejected() {
    let m = message(TimedMidiMessageType::NoteOn, 0, 60, 100);
    assert_eq!(m.to_bytes(), Err(EncodeError::ChannelOutOfRange));
}

#[test]
fn channel_seventeen_is_rejected() {
    let m = message(TimedMidiMessageType::NoteOn, 17, 60, 100);
    assert_eq!(m.to_bytes(), Err(EncodeError::ChannelOutOfRange));
}

#[test]
fn note_above_range_is_rejected() {
    let m = message(TimedMidiMessageType::NoteOn, 1, 128, 100);
    assert_eq!(m.to_bytes(), Err(EncodeError::ValueOutOfRange));
}

#[test]
fn velocity_above_range_is_rejected() {
    let m = message(TimedMidiMessageType::NoteOn, 1, 60, 128);
    assert_eq!(m.to_bytes(), Err(EncodeError::ValueOutOfRange));
    let off = message(TimedMidiMessageType::NoteOff, 1, 60, 128);
    assert_eq!(off.to_bytes(), Err(EncodeError::ValueOutOfRange));
}

#[test]
fn channel_is_checked_before_values() {
    let m = message(TimedMidiMessageType::NoteOn, 0, 200, 200);
    assert_eq!(m.to_bytes(), Err(EncodeError::ChannelOutOfRange));
}
