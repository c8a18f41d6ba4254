//! Raw MIDI messages and the events they stand for.

use vstd::prelude::*;

verus! {

/// Status byte of a note-on message on the first channel.
pub const STATUS_NOTE_ON: u8 = 144;

/// Status byte of a control-change message on the first channel.
pub const STATUS_CONTROL_CHANGE: u8 = 176;

/// Status byte of a program-change message on the first channel.
pub const STATUS_PROGRAM_CHANGE: u8 = 192;

/// Status byte of a pitch-bend message on the first channel.
pub const STATUS_PITCH_BEND: u8 = 224;

/// What the performer did, as far as one MIDI message tells.
#[derive(Clone, Copy, Debug, PartialEq, Eq, Structural)]
pub enum MidiEvent {
    /// A key went down: key number, velocity (never zero).
    KeyPressed(u8, u8),
    /// A key came up: key number.
    KeyReleased(u8),
    /// A knob or slider moved: controller id, new value.
    Knob(u8, u8),
    /// A button was pushed: button id.
    Button(u8),
    /// The pitch wheel moved: coarse value.
    PitchBend(u8),
    /// Any other message, kept as it came: status, first and second data byte.
    Unknown(u8, u8, u8),
}

/// The event that the message `(status, data1, data2)` stands for.
///
/// A note-on with velocity zero is a release, as many controllers send it in
/// place of a note-off. The status byte is compared whole, so only messages
/// on the first channel are recognised.
pub open spec fn event_of(status: u8, data1: u8, data2: u8) -> MidiEvent {
    if status == STATUS_NOTE_ON {
        if data2 == 0 {
            MidiEvent::KeyReleased(data1)
        } else {
            MidiEvent::KeyPressed(data1, data2)
        }
    } else if status == STATUS_CONTROL_CHANGE {
        MidiEvent::Knob(data1, data2)
    } else if status == STATUS_PROGRAM_CHANGE {
        MidiEvent::Button(data1)
    } else if status == STATUS_PITCH_BEND {
        MidiEvent::PitchBend(data2)
    } else {
        MidiEvent::Unknown(status, data1, data2)
    }
}

/// Translates one raw MIDI message into its event.
pub fn translate(status: u8, data1: u8, data2: u8) -> (event: MidiEvent)
    ensures
        event == event_of(status, data1, data2),
{
    match status {
        144 => if data2 == 0 {
            MidiEvent::KeyReleased(data1)
        } else {
            MidiEvent::KeyPressed(data1, data2)
        },
        176 => MidiEvent::Knob(data1, data2),
        192 => MidiEvent::Button(data1),
        224 => MidiEvent::PitchBend(data2),
        _ => MidiEvent::Unknown(status, data1, data2),
    }
}

} // verus!
