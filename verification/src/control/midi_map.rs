//! MIDI controller bindings.
//!
//! Provides configurable MIDI bindings for notes, CCs, and program
//! changes, matched against incoming channel messages.

use vstd::prelude::*;

verus! {

// MIDI message status bytes
pub const NOTE_OFF: u8 = 0x80;
pub const NOTE_ON: u8 = 0x90;
pub const POLY_PRESSURE: u8 = 0xA0;
pub const CONTROL_CHANGE: u8 = 0xB0;
pub const PROGRAM_CHANGE: u8 = 0xC0;
pub const CHANNEL_PRESSURE: u8 = 0xD0;
pub const PITCH_BEND: u8 = 0xE0;

/// Type of MIDI binding
#[derive(Debug, Clone, Copy, PartialEq, Eq, Structural)]
pub enum MidiBindingType {
    /// Note on/off
    Note,
    /// Control Change (CC)
    ControlChange,
    /// Program Change
    ProgramChange,
    /// Pitch Bend
    PitchBend,
}

/// A MIDI binding identifier
#[derive(Debug, Clone, Copy, PartialEq, Eq, Structural)]
pub struct MidiBinding {
    /// Binding type
    pub binding_type: MidiBindingType,
    /// MIDI channel (0-15, or None for any channel)
    pub channel: Option<u8>,
    /// Data byte 1 (note number, CC number, etc.)
    pub data1: u8,
}

/// Whether a binding matches a channel message: the channel must agree
/// when the binding names one; the status nibble must carry the binding's
/// kind (note bindings accept note off too); and the first data byte must
/// agree except for pitch bend.
pub open spec fn spec_binding_matches(b: MidiBinding, channel: u8, status: u8, data1: u8)
    -> bool {
    let msg_type = status & 0xF0;
    let channel_ok = match b.channel {
        Some(ch) => ch == channel,
        None => true,
    };
    let type_ok = match b.binding_type {
        MidiBindingType::Note => msg_type == 0x90 || msg_type == 0x80,
        MidiBindingType::ControlChange => msg_type == 0xB0,
        MidiBindingType::ProgramChange => msg_type == 0xC0,
        MidiBindingType::PitchBend => msg_type == 0xE0,
    };
    let data_ok = b.binding_type == MidiBindingType::PitchBend || b.data1 == data1;
    channel_ok && type_ok && data_ok
}

impl MidiBinding {
    /// Create a note binding
    pub fn note(channel: u8, note: u8) -> (r: Self)
        ensures
            r == (MidiBinding {
                binding_type: MidiBindingType::Note,
                channel: Some(channel),
                data1: note,
            }),
    {
        Self { binding_type: MidiBindingType::Note, channel: Some(channel), data1: note }
    }

    /// Create a note binding for any channel
    pub fn note_any(note: u8) -> (r: Self)
        ensures
            r == (MidiBinding {
                binding_type: MidiBindingType::Note,
                channel: None,
                data1: note,
            }),
    {
        Self { binding_type: MidiBindingType::Note, channel: None, data1: note }
    }

    /// Create a CC binding
    pub fn cc(channel: u8, cc: u8) -> (r: Self)
        ensures
            r == (MidiBinding {
                binding_type: MidiBindingType::ControlChange,
                channel: Some(channel),
                data1: cc,
            }),
    {
        Self { binding_type: MidiBindingType::ControlChange, channel: Some(channel), data1: cc }
    }

    /// Create a CC binding for any channel
    pub fn cc_any(cc: u8) -> (r: Self)
        ensures
            r == (MidiBinding {
                binding_type: MidiBindingType::ControlChange,
                channel: None,
                data1: cc,
            }),
    {
        Self { binding_type: MidiBindingType::ControlChange, channel: None, data1: cc }
    }

    /// Create a program change binding
    pub fn program(channel: u8, program: u8) -> (r: Self)
        ensures
            r == (MidiBinding {
                binding_type: MidiBindingType::ProgramChange,
                channel: Some(channel),
                data1: program,
            }),
    {
        Self {
            binding_type: MidiBindingType::ProgramChange,
            channel: Some(channel),
            data1: program,
        }
    }

    /// Create a pitch bend binding
    pub fn pitch_bend(channel: u8) -> (r: Self)
        ensures
            r == (MidiBinding {
                binding_type: MidiBindingType::PitchBend,
                channel: Some(channel),
                data1: 0,
            }),
    {
        Self { binding_type: MidiBindingType::PitchBend, channel: Some(channel), data1: 0 }
    }

    /// Check if this binding matches a MIDI message
    pub fn matches(&self, channel: u8, status: u8, data1: u8) -> (r: bool)
        ensures
            r == spec_binding_matches(*self, channel, status, data1),
    {
        // Check channel
        match self.channel {
            Some(ch) => {
                if ch != channel {
                    return false;
                }
            },
            None => {},
        }

        // Check message type
        let msg_type = status & 0xF0;
        let type_ok = match self.binding_type {
            MidiBindingType::Note => msg_type == NOTE_ON || msg_type == NOTE_OFF,
            MidiBindingType::ControlChange => msg_type == CONTROL_CHANGE,
            MidiBindingType::ProgramChange => msg_type == PROGRAM_CHANGE,
            MidiBindingType::PitchBend => msg_type == PITCH_BEND,
        };
        if !type_ok {
            return false;
        }

        // Check data1 (except for pitch bend)
        if !(self.binding_type == MidiBindingType::PitchBend) {
            if self.data1 != data1 {
                return false;
            }
        }

        true
    }
}

/// Encoder mode for CC controls. Normalization to continuous values is a
/// concern of the layer that applies the control.
#[derive(Debug, Clone, Copy, PartialEq, Eq, Structural)]
pub enum EncoderMode {
    /// Absolute (0-127)
    Absolute,
    /// Relative (64 = no change, <64 = decrement, >64 = increment)
    Relative64,
    /// Relative (0 = no change, 1-63 = increment, 65-127 = decrement)
    RelativeBinary,
    /// Relative (signed, 1-64 = increment, 65-127 = decrement)
    RelativeSigned,
}

impl Default for EncoderMode {
    /// Encoders read absolute values unless configured otherwise.
    fn default() -> (r: Self)
        ensures
            r == EncoderMode::Absolute,
    {
        EncoderMode::Absolute
    }
}

/// The display text of a binding: an optional 1-based channel prefix,
/// then the kind and its data byte (a note as name and octave).
pub open spec fn spec_format_binding(binding: MidiBinding) -> Seq<char> {
    let channel = match binding.channel {
        Some(c) => "Ch"@ + crate::text::spec_dec(c + 1) + " "@,
        None => Seq::<char>::empty(),
    };
    match binding.binding_type {
        MidiBindingType::Note => channel + "Note "@ + spec_note_name(binding.data1 as int),
        MidiBindingType::ControlChange => channel + "CC "@
            + crate::text::spec_dec(binding.data1 as int),
        MidiBindingType::ProgramChange => channel + "PC "@
            + crate::text::spec_dec(binding.data1 as int),
        MidiBindingType::PitchBend => channel + "PitchBend"@,
    }
}

/// The display name of a MIDI note: its pitch-class name and its octave,
/// where 60 reads as C4.
pub open spec fn spec_note_name(note: int) -> Seq<char> {
    spec_pc_name(note % 12) + spec_octave_name(note / 12)
}

/// The name of a pitch class.
pub open spec fn spec_pc_name(pc: int) -> Seq<char> {
    if pc == 0 { "C"@ }
    else if pc == 1 { "C#"@ }
    else if pc == 2 { "D"@ }
    else if pc == 3 { "D#"@ }
    else if pc == 4 { "E"@ }
    else if pc == 5 { "F"@ }
    else if pc == 6 { "F#"@ }
    else if pc == 7 { "G"@ }
    else if pc == 8 { "G#"@ }
    else if pc == 9 { "A"@ }
    else if pc == 10 { "A#"@ }
    else { "B"@ }
}

/// The display octave: one less than the MIDI octave number.
pub open spec fn spec_octave_name(midi_octave: int) -> Seq<char> {
    if midi_octave == 0 { "-1"@ }
    else { crate::text::spec_dec(midi_octave - 1) }
}

/// The name of a pitch class, as a string slice.
pub fn pc_name(pc: u8) -> (r: &'static str)
    requires
        pc < 12,
    ensures
        r@ == spec_pc_name(pc as int),
{
    match pc {
        0 => "C",
        1 => "C#",
        2 => "D",
        3 => "D#",
        4 => "E",
        5 => "F",
        6 => "F#",
        7 => "G",
        8 => "G#",
        9 => "A",
        10 => "A#",
        _ => "B",
    }
}

/// The display name of a MIDI note (60 reads as C4).
pub fn note_name(note: u8) -> (r: String)
    ensures
        r@ == spec_note_name(note as int),
{
    let pc = note % 12;
    let octave = note / 12;
    let mut s = pc_name(pc).to_owned();
    if octave == 0 {
        proof {
            reveal_strlit("-1");
        }
        s.append("-1");
    } else {
        let o = crate::text::dec_u64(octave as u64 - 1);
        s.append(o.as_str());
    }
    proof {
        assert(s@ =~= spec_note_name(note as int));
    }
    s
}

/// Format a MIDI binding for display
pub fn format_binding(binding: &MidiBinding) -> (r: String)
    ensures
        r@ == spec_format_binding(*binding),
{
    let mut s: String = String::new();
    match binding.channel {
        Some(c) => {
            proof {
                reveal_strlit("Ch");
                reveal_strlit(" ");
            }
            s.append("Ch");
            let num = crate::text::dec_u64(c as u64 + 1);
            s.append(num.as_str());
            s.append(" ");
        },
        None => {},
    }
    match binding.binding_type {
        MidiBindingType::Note => {
            proof {
                reveal_strlit("Note ");
            }
            s.append("Note ");
            let n = note_name(binding.data1);
            s.append(n.as_str());
        },
        MidiBindingType::ControlChange => {
            proof {
                reveal_strlit("CC ");
            }
            s.append("CC ");
            let n = crate::text::dec_u64(binding.data1 as u64);
            s.append(n.as_str());
        },
        MidiBindingType::ProgramChange => {
            proof {
                reveal_strlit("PC ");
            }
            s.append("PC ");
            let n = crate::text::dec_u64(binding.data1 as u64);
            s.append(n.as_str());
        },
        MidiBindingType::PitchBend => {
            proof {
                reveal_strlit("PitchBend");
            }
            s.append("PitchBend");
        },
    }
    proof {
        assert(s@ =~= spec_format_binding(*binding));
    }
    s
}

} // verus!
