//! Timed MIDI events and their wire encoding.

use vstd::prelude::*;

verus! {

/// Whether a timed message starts or stops a note.
#[derive(Clone, Copy, Debug, PartialEq, Eq, Structural)]
pub enum TimedMidiMessageType {
    NoteOn,
    NoteOff,
}

/// A MIDI note message that becomes due at `due_at` milliseconds after start.
#[derive(Clone, Copy, Debug, PartialEq, Eq, Structural)]
pub struct TimedMidiMessage {
    pub kind: TimedMidiMessageType,
    /// MIDI note number.
    pub note: u8,
    /// MIDI channel, numbered from 1.
    pub channel: u8,
    /// Note velocity; zero in every note-off built here.
    pub velocity: u8,
    /// Elapsed time in milliseconds at which the message should be sent.
    pub due_at: u64,
}

/// Why a message could not be put on the wire.
#[derive(Clone, Copy, Debug, PartialEq, Eq, Structural)]
pub enum EncodeError {
    /// The channel is not within 1 to 16.
    ChannelOutOfRange,
    /// The note number or the velocity is above 127.
    ValueOutOfRange,
}

/// The note-on message and the note-off message `length` milliseconds later.
pub open spec fn on_off_pair(chan: u8, note: u8, velocity: u8, trigger: u64, length: u64) -> (
    TimedMidiMessage,
    TimedMidiMessage,
) {
    (
        TimedMidiMessage {
            kind: TimedMidiMessageType::NoteOn,
            note,
            channel: chan,
            velocity,
            due_at: trigger,
        },
        TimedMidiMessage {
            kind: TimedMidiMessageType::NoteOff,
            note,
            channel: chan,
            velocity: 0,
            due_at: (trigger + length) as u64,
        },
    )
}

/// MIDI status nibble of a message kind.
pub open spec fn status_nibble(kind: TimedMidiMessageType) -> u8 {
    match kind {
        TimedMidiMessageType::NoteOn => 0x90,
        TimedMidiMessageType::NoteOff => 0x80,
    }
}

/// The three wire bytes of a message, or why there are none.
pub open spec fn encoding(m: TimedMidiMessage) -> Result<Seq<u8>, EncodeError> {
    if !(1 <= m.channel <= 16) {
        Err(EncodeError::ChannelOutOfRange)
    } else if m.note > 127 || m.velocity > 127 {
        Err(EncodeError::ValueOutOfRange)
    } else {
        let velocity: u8 = match m.kind {
            TimedMidiMessageType::NoteOn => m.velocity,
            TimedMidiMessageType::NoteOff => 0,
        };
        Ok(seq![(status_nibble(m.kind) + (m.channel - 1)) as u8, m.note, velocity])
    }
}

/// A channel outside 1 to 16, or a note or velocity above 127, is an error
/// and never clamped into range; in range, a message has exactly three bytes.
pub proof fn lemma_out_of_range_is_rejected(m: TimedMidiMessage)
    ensures
        !(1 <= m.channel <= 16) ==> encoding(m) == Err::<Seq<u8>, EncodeError>(
            EncodeError::ChannelOutOfRange,
        ),
        1 <= m.channel <= 16 && (m.note > 127 || m.velocity > 127) ==> encoding(m) == Err::<
            Seq<u8>,
            EncodeError,
        >(EncodeError::ValueOutOfRange),
        1 <= m.channel <= 16 && m.note <= 127 && m.velocity <= 127 ==> (encoding(m) matches Ok(
            bytes,
        ) && bytes.len() == 3),
{
}

/// Relies on wmidi's `Channel::from_index`, `Note::from_u8_lossy`,
/// `U7::from_u8_lossy` and `MidiMessage::to_vec`: a note-on is written as
/// `0x90 | channel index`, the note and the velocity.
#[verifier::external_body]
fn note_on_wire(channel_index: u8, note: u8, velocity: u8) -> (r: Vec<u8>)
    requires
        channel_index < 16,
        note < 128,
        velocity < 128,
    ensures
        r@ == seq![(0x90 + channel_index) as u8, note, velocity],
{
    let channel = wmidi::Channel::from_index(channel_index).expect("channel index below 16");
    wmidi::MidiMessage::NoteOn(
        channel,
        wmidi::Note::from_u8_lossy(note),
        wmidi::U7::from_u8_lossy(velocity),
    ).to_vec()
}

/// Relies on wmidi's `Channel::from_index`, `Note::from_u8_lossy`,
/// `U7::from_u8_lossy` and `MidiMessage::to_vec`: a note-off is written as
/// `0x80 | channel index`, the note and the velocity.
#[verifier::external_body]
fn note_off_wire(channel_index: u8, note: u8, velocity: u8) -> (r: Vec<u8>)
    requires
        channel_index < 16,
        note < 128,
        velocity < 128,
    ensures
        r@ == seq![(0x80 + channel_index) as u8, note, velocity],
{
    let channel = wmidi::Channel::from_index(channel_index).expect("channel index below 16");
    wmidi::MidiMessage::NoteOff(
        channel,
        wmidi::Note::from_u8_lossy(note),
        wmidi::U7::from_u8_lossy(velocity),
    ).to_vec()
}

impl TimedMidiMessage {
    /// Creates a note-on due at `trigger` and its note-off due `length`
    /// milliseconds later, on the same channel and note.
    pub fn create_on_off(chan: u8, note: u8, velocity: u8, trigger: u64, length: u64) -> (r: (
        TimedMidiMessage,
        TimedMidiMessage,
    ))
        requires
            trigger + length <= u64::MAX,
        ensures
            r == on_off_pair(chan, note, velocity, trigger, length),
    {
        let on = TimedMidiMessage {
            kind: TimedMidiMessageType::NoteOn,
            note,
            channel: chan,
            velocity,
            due_at: trigger,
        };
        let off = TimedMidiMessage {
            kind: TimedMidiMessageType::NoteOff,
            note,
            channel: chan,
            velocity: 0,
            due_at: trigger + length,
        };
        (on, off)
    }

    /// The MIDI bytes of this message: status byte (kind nibble and channel
    /// index), note, velocity (always zero for a note-off). Out-of-range
    /// fields are reported, never clamped.
    pub fn to_bytes(&self) -> (r: Result<Vec<u8>, EncodeError>)
        ensures
            match r {
                Ok(bytes) => encoding(*self) == Ok::<Seq<u8>, EncodeError>(bytes@),
                Err(e) => encoding(*self) == Err::<Seq<u8>, EncodeError>(e),
            },
    {
        if self.channel < 1 || self.channel > 16 {
            return Err(EncodeError::ChannelOutOfRange);
        }
        if self.note > 127 || self.velocity > 127 {
            return Err(EncodeError::ValueOutOfRange);
        }
        let index = self.channel - 1;
        match self.kind {
            TimedMidiMessageType::NoteOn => Ok(note_on_wire(index, self.note, self.velocity)),
            TimedMidiMessageType::NoteOff => Ok(note_off_wire(index, self.note, 0)),
        }
    }
}

} // verus!
