//! MIDI messages as the engine consumes them, and the parser that decodes
//! them from raw transport bytes.

use vstd::prelude::*;

verus! {

/// A MIDI event after decoding: note strikes and releases, and the two
/// sustain-pedal edges.  Velocity is the raw 0–127 MIDI value.
#[derive(Clone, Copy, Debug, PartialEq, Eq, Structural)]
pub enum Message {
    NoteOn { pitch: u8, channel: u8, velocity: u8 },
    NoteOff { pitch: u8, channel: u8 },
    PedalOn,
    PedalOff,
}

/// The message a well-formed three-byte MIDI packet decodes to, if any:
/// note-off (0x8c), note-on (0x9c, demoted to note-off at velocity 0), and
/// controller 0x40 (sustain pedal) on channel 0.
pub open spec fn message_of_bytes(s: Seq<u8>) -> Option<Message> {
    if s.len() == 3 {
        if 0x80 <= s[0] <= 0x8f {
            Some(Message::NoteOff { channel: (s[0] - 0x80) as u8, pitch: s[1] })
        } else if 0x90 <= s[0] <= 0x9f {
            if s[2] != 0 {
                Some(
                    Message::NoteOn { channel: (s[0] - 0x90) as u8, pitch: s[1], velocity: s[2] },
                )
            } else {
                Some(Message::NoteOff { channel: 0, pitch: s[1] })
            }
        } else if s[0] == 0xb0 {
            if s[1] == 0x40 {
                if s[2] == 0x00 {
                    Some(Message::PedalOff)
                } else {
                    Some(Message::PedalOn)
                }
            } else {
                None
            }
        } else {
            None
        }
    } else {
        None
    }
}

/// Decode one raw MIDI packet; `None` for anything the engine does not
/// understand.
pub fn message_of_vec(vec: &[u8]) -> (r: Option<Message>)
    ensures
        r == message_of_bytes(vec@),
{
    if vec.len() == 3 {
        let b0 = vec[0];
        if 0x80 <= b0 && b0 <= 0x8f {
            Some(Message::NoteOff { channel: b0 - 0x80, pitch: vec[1] })
        } else if 0x90 <= b0 && b0 <= 0x9f {
            if vec[2] != 0 {
                Some(Message::NoteOn { channel: b0 - 0x90, pitch: vec[1], velocity: vec[2] })
            } else {
                Some(Message::NoteOff { channel: 0, pitch: vec[1] })
            }
        } else if b0 == 0xb0 {
            if vec[1] == 0x40 {
                if vec[2] == 0x00 {
                    Some(Message::PedalOff)
                } else {
                    Some(Message::PedalOn)
                }
            } else {
                None
            }
        } else {
            None
        }
    } else {
        None
    }
}

/// Errors of the MIDI transport layer.
#[derive(Clone, Copy, Debug, PartialEq, Eq, Structural)]
pub enum MidiError {
    Os(i32),
    BadSource(usize),
}

impl From<i32> for MidiError {
    /// A raw OS error code becomes [`MidiError::Os`].
    fn from(x: i32) -> (r: MidiError) {
        MidiError::Os(x)
    }
}

impl vstd::std_specs::convert::FromSpecImpl<i32> for MidiError {
    open spec fn obeys_from_spec() -> bool {
        true
    }

    open spec fn from_spec(x: i32) -> MidiError {
        MidiError::Os(x)
    }
}

} // verus!
