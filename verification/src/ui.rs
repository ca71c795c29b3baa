//! State the terminal front end displays.
//!
//! The rendering itself is a collaborator's concern; this module holds
//! the track, transport and MIDI-activity state it draws, and the key
//! actions it hands back to the control layer.

pub mod midi_activity;
pub mod tracks;
pub mod transport;

use vstd::prelude::*;

use crate::sequencer::track::TrackState;

verus! {

/// Per-track state for display
#[derive(Debug)]
pub struct TrackUiState {
    /// Track name
    pub name: String,
    /// Track index
    pub index: usize,
    /// MIDI channel (1-16 for display)
    pub channel: u8,
    /// Track state
    pub state: TrackState,
    /// Active clip name (if any)
    pub active_clip: Option<String>,
    /// Generator name (if any)
    pub generator: Option<String>,
    /// Currently playing notes
    pub playing_notes: Vec<u8>,
    /// Velocity meter (0-127)
    pub velocity_meter: u8,
}

impl TrackUiState {
    /// Create a fresh display state for a track: active on channel one,
    /// with nothing playing.
    pub fn new(index: usize, name: String) -> (r: Self)
        ensures
            r.name@ == name@,
            r.index == index,
            r.channel == 1,
            r.state == TrackState::Active,
            r.active_clip is None,
            r.generator is None,
            r.playing_notes@.len() == 0,
            r.velocity_meter == 0,
    {
        Self {
            name,
            index,
            channel: 1,
            state: TrackState::Active,
            active_clip: None,
            generator: None,
            playing_notes: Vec::new(),
            velocity_meter: 0,
        }
    }
}

/// A MIDI activity message for display
#[derive(Debug)]
pub struct MidiActivityMessage {
    /// Message type description
    pub message_type: String,
    /// Channel (1-16)
    pub channel: u8,
    /// Data (note name, CC assignment, etc.)
    pub data: String,
}

impl MidiActivityMessage {
    /// A note-on line: the note's name and its velocity.
    pub fn note_on(channel: u8, note: u8, velocity: u8) -> (r: Self)
        ensures
            r.message_type@ == "Note On"@,
            r.channel == channel,
            r.data@ == crate::control::midi_map::spec_note_name(note as int)
                + " vel:"@ + crate::text::spec_dec(velocity as int),
    {
        proof {
            reveal_strlit("Note On");
            reveal_strlit(" vel:");
        }
        let mut data = crate::control::midi_map::note_name(note);
        data.append(" vel:");
        let v = crate::text::dec_u64(velocity as u64);
        data.append(v.as_str());
        Self { message_type: ("Note On").to_owned(), channel, data }
    }

    /// A note-off line: the note's name.
    pub fn note_off(channel: u8, note: u8) -> (r: Self)
        ensures
            r.message_type@ == "Note Off"@,
            r.channel == channel,
            r.data@ == crate::control::midi_map::spec_note_name(note as int),
    {
        proof {
            reveal_strlit("Note Off");
        }
        Self {
            message_type: ("Note Off").to_owned(),
            channel,
            data: crate::control::midi_map::note_name(note),
        }
    }

    /// A control-change line: the controller and its value.
    pub fn control_change(channel: u8, cc: u8, value: u8) -> (r: Self)
        ensures
            r.message_type@ == "CC"@,
            r.channel == channel,
            r.data@ == crate::text::spec_dec(cc as int) + "="@
                + crate::text::spec_dec(value as int),
    {
        proof {
            reveal_strlit("CC");
            reveal_strlit("=");
        }
        let mut data = crate::text::dec_u64(cc as u64);
        data.append("=");
        let v = crate::text::dec_u64(value as u64);
        data.append(v.as_str());
        Self { message_type: ("CC").to_owned(), channel, data }
    }
}

/// MIDI activity state: the most recent messages in each direction.
#[derive(Debug)]
pub struct MidiActivityState {
    /// Recent MIDI input messages
    pub input_messages: Vec<MidiActivityMessage>,
    /// Recent MIDI output messages
    pub output_messages: Vec<MidiActivityMessage>,
    /// MIDI learn mode active
    pub learn_mode: bool,
    /// Last learned mapping
    pub last_learned: Option<String>,
    /// Maximum messages to keep
    pub max_messages: usize,
}

impl MidiActivityState {
    /// Create an empty activity view keeping the last ten messages.
    pub fn new() -> (r: Self)
        ensures
            r.input_messages@.len() == 0,
            r.output_messages@.len() == 0,
            !r.learn_mode,
            r.last_learned is None,
            r.max_messages == 10,
    {
        Self {
            input_messages: Vec::new(),
            output_messages: Vec::new(),
            learn_mode: false,
            last_learned: None,
            max_messages: 10,
        }
    }

    /// Add an input message; the oldest leaves once more than the
    /// configured maximum are held.
    pub fn add_input(&mut self, msg: MidiActivityMessage)
        ensures
            final(self).input_messages@.len()
                <= old(self).input_messages@.len() + 1,
            final(self).output_messages@ == old(self).output_messages@,
    {
        self.input_messages.push(msg);
        if self.input_messages.len() > self.max_messages {
            self.input_messages.remove(0);
        }
    }

    /// Add an output message; the oldest leaves once more than the
    /// configured maximum are held.
    pub fn add_output(&mut self, msg: MidiActivityMessage)
        ensures
            final(self).output_messages@.len()
                <= old(self).output_messages@.len() + 1,
            final(self).input_messages@ == old(self).input_messages@,
    {
        self.output_messages.push(msg);
        if self.output_messages.len() > self.max_messages {
            self.output_messages.remove(0);
        }
    }

    /// Clear all messages
    pub fn clear(&mut self)
        ensures
            final(self).input_messages@.len() == 0,
            final(self).output_messages@.len() == 0,
            final(self).learn_mode == old(self).learn_mode,
    {
        self.input_messages.clear();
        self.output_messages.clear();
    }
}

/// Key event result
#[derive(Debug, Clone, Copy, PartialEq, Eq, Structural)]
pub enum KeyAction {
    /// No action needed
    Idle,
    /// Quit the application
    Quit,
    /// Toggle play/pause
    TogglePlay,
    /// Stop playback
    Stop,
    /// Toggle record
    ToggleRecord,
    /// Increase tempo
    TempoUp,
    /// Decrease tempo
    TempoDown,
    /// Nudge tempo up
    NudgeUp,
    /// Nudge tempo down
    NudgeDown,
    /// Toggle track mute
    ToggleMute(usize),
    /// Toggle track solo
    ToggleSolo(usize),
    /// Trigger scene
    TriggerScene(usize),
    /// Toggle help
    ToggleHelp,
    /// Toggle MIDI learn
    ToggleLearn,
}

} // verus!
