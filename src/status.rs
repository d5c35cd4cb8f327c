//! Classification of a status byte into a message kind and a channel.

use vstd::prelude::*;

verus! {

/// The kind of a MIDI channel-voice message, read from the high nibble of its
/// status byte.
#[derive(Debug, Clone, Copy, PartialEq, Eq)]
pub enum MidiStatus {
    NoteOn,
    NoteOff,
    AfterTouch,
    ControllerValue,
    ProgramChange,
    ChannelPressure,
    PitchBend,
    Unknown,
}

/// The kind that a status byte announces: one range of sixteen values per
/// channel-voice kind, `Unknown` for every other byte.
pub open spec fn status_kind(b: u8) -> MidiStatus {
    if 0x80 <= b && b <= 0x8F {
        MidiStatus::NoteOff
    } else if 0x90 <= b && b <= 0x9F {
        MidiStatus::NoteOn
    } else if 0xA0 <= b && b <= 0xAF {
        MidiStatus::AfterTouch
    } else if 0xB0 <= b && b <= 0xBF {
        MidiStatus::ControllerValue
    } else if 0xC0 <= b && b <= 0xCF {
        MidiStatus::ProgramChange
    } else if 0xD0 <= b && b <= 0xDF {
        MidiStatus::ChannelPressure
    } else if 0xE0 <= b && b <= 0xEF {
        MidiStatus::PitchBend
    } else {
        MidiStatus::Unknown
    }
}

/// The channel that a status byte addresses: its low nibble, or 0 where the
/// byte announces no channel-voice kind.
pub open spec fn status_channel(b: u8) -> u8 {
    if status_kind(b) is Unknown {
        0
    } else {
        b & 0x0F
    }
}

/// The number of data bytes that follow the status byte of a message of
/// kind `k`.
pub open spec fn data_len(k: MidiStatus) -> nat {
    match k {
        MidiStatus::ProgramChange | MidiStatus::ChannelPressure => 1,
        MidiStatus::Unknown => 0,
        _ => 2,
    }
}

impl MidiStatus {
    /// Splits a status byte into the kind it announces and its channel.
    pub fn get_status(a: &u8) -> (r: (MidiStatus, u8))
        ensures
            r.0 == status_kind(*a),
            r.1 == status_channel(*a),
            r.1 < 16,
            r.0 is Unknown ==> r.1 == 0,
            !(r.0 is Unknown) ==> r.1 == *a & 0x0F,
    {
        let b: u8 = *a;
        proof {
            assert(b >> 4u8 == b / 16) by (bit_vector);
            assert(b & 0x0Fu8 < 16) by (bit_vector);
        }
        let high: u8 = b >> 4;
        let low: u8 = b & 0x0F;
        let kind = match high {
            0x8 => MidiStatus::NoteOff,
            0x9 => MidiStatus::NoteOn,
            0xA => MidiStatus::AfterTouch,
            0xB => MidiStatus::ControllerValue,
            0xC => MidiStatus::ProgramChange,
            0xD => MidiStatus::ChannelPressure,
            0xE => MidiStatus::PitchBend,
            _ => MidiStatus::Unknown,
        };
        match kind {
            MidiStatus::Unknown => (kind, 0),
            _ => (kind, low),
        }
    }

    /// How many data bytes follow a status byte of this kind: two for the
    /// note, after-touch, controller and pitch-bend kinds, one for program
    /// change and channel pressure, none for `Unknown`.
    pub fn data_byte_count(&self) -> (r: usize)
        ensures
            r == data_len(*self),
    {
        match self {
            MidiStatus::ProgramChange | MidiStatus::ChannelPressure => 1,
            MidiStatus::Unknown => 0,
            _ => 2,
        }
    }
}

} // verus!
