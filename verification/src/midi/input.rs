//! Parsing of incoming MIDI bytes, MIDI-learn capture, and external
//! clock synchronization.

use vstd::prelude::*;

use crate::midi::messages;

verus! {

/// Parsed MIDI message types
#[derive(Debug, Clone, PartialEq)]
pub enum MidiMessage {
    /// Note On: channel (0-15), note (0-127), velocity (0-127)
    NoteOn { channel: u8, note: u8, velocity: u8 },
    /// Note Off: channel (0-15), note (0-127), velocity (0-127)
    NoteOff { channel: u8, note: u8, velocity: u8 },
    /// Control Change: channel (0-15), controller (0-127), value (0-127)
    ControlChange { channel: u8, controller: u8, value: u8 },
    /// Program Change: channel (0-15), program (0-127)
    ProgramChange { channel: u8, program: u8 },
    /// Pitch Bend: channel (0-15), value (-8192 to 8191)
    PitchBend { channel: u8, value: i16 },
    /// Channel Aftertouch: channel (0-15), pressure (0-127)
    ChannelAftertouch { channel: u8, pressure: u8 },
    /// Poly Aftertouch: channel (0-15), note (0-127), pressure (0-127)
    PolyAftertouch { channel: u8, note: u8, pressure: u8 },
    /// MIDI Clock tick
    TimingClock,
    /// Start playback
    Start,
    /// Continue playback
    Continue,
    /// Stop playback
    Stop,
    /// Unknown/unparsed message
    Unknown(Vec<u8>),
}

/// What `MidiMessage::parse` returns for recognized bytes: real-time
/// single-byte messages first, then channel-voice messages by the status
/// nibble, with data bytes masked to seven bits; a Note On with velocity
/// zero reads as a Note Off. `None` stands for the unrecognized case,
/// which `parse` answers with `Unknown` carrying the bytes unchanged.
pub open spec fn spec_parse_midi(data: Seq<u8>) -> Option<MidiMessage> {
    if data.len() == 0 {
        None
    } else if data[0] == 0xF8 {
        Some(MidiMessage::TimingClock)
    } else if data[0] == 0xFA {
        Some(MidiMessage::Start)
    } else if data[0] == 0xFB {
        Some(MidiMessage::Continue)
    } else if data[0] == 0xFC {
        Some(MidiMessage::Stop)
    } else {
        let msg_type = data[0] & 0xF0;
        let channel = data[0] & 0x0F;
        if msg_type == 0x80 && data.len() >= 3 {
            Some(MidiMessage::NoteOff {
                channel,
                note: data[1] & 0x7F,
                velocity: data[2] & 0x7F,
            })
        } else if msg_type == 0x90 && data.len() >= 3 {
            if data[2] & 0x7F == 0 {
                Some(MidiMessage::NoteOff { channel, note: data[1] & 0x7F, velocity: 0 })
            } else {
                Some(MidiMessage::NoteOn {
                    channel,
                    note: data[1] & 0x7F,
                    velocity: data[2] & 0x7F,
                })
            }
        } else if msg_type == 0xB0 && data.len() >= 3 {
            Some(MidiMessage::ControlChange {
                channel,
                controller: data[1] & 0x7F,
                value: data[2] & 0x7F,
            })
        } else if msg_type == 0xC0 && data.len() >= 2 {
            Some(MidiMessage::ProgramChange { channel, program: data[1] & 0x7F })
        } else if msg_type == 0xE0 && data.len() >= 3 {
            Some(MidiMessage::PitchBend {
                channel,
                value: (((data[2] & 0x7F) as int) * 128 + (data[1] & 0x7F) as int - 8192) as i16,
            })
        } else if msg_type == 0xD0 && data.len() >= 2 {
            Some(MidiMessage::ChannelAftertouch { channel, pressure: data[1] & 0x7F })
        } else if msg_type == 0xA0 && data.len() >= 3 {
            Some(MidiMessage::PolyAftertouch {
                channel,
                note: data[1] & 0x7F,
                pressure: data[2] & 0x7F,
            })
        } else {
            None
        }
    }
}

/// Masking to the low seven bits keeps a byte below 128.
proof fn lemma_mask_low7(x: u8)
    ensures
        x & 0x7F < 128,
{
    assert(x & 0x7F < 128) by (bit_vector);
}

impl MidiMessage {
    /// Parse raw MIDI bytes into a MidiMessage
    pub fn parse(data: &[u8]) -> (r: Option<Self>)
        ensures
            data@.len() == 0 ==> r is None,
            spec_parse_midi(data@) is Some ==> r == spec_parse_midi(data@),
            data@.len() > 0 && spec_parse_midi(data@) is None
                ==> (r matches Some(MidiMessage::Unknown(b)) && b@ == data@),
    {
        if data.len() == 0 {
            return None;
        }

        let status = data[0];

        // System Real-Time messages (single byte)
        if status == messages::TIMING_CLOCK {
            return Some(MidiMessage::TimingClock);
        }
        if status == messages::START {
            return Some(MidiMessage::Start);
        }
        if status == messages::CONTINUE {
            return Some(MidiMessage::Continue);
        }
        if status == messages::STOP {
            return Some(MidiMessage::Stop);
        }

        // Channel messages
        let msg_type = status & 0xF0;
        let channel = status & 0x0F;

        if msg_type == messages::NOTE_OFF && data.len() >= 3 {
            Some(MidiMessage::NoteOff {
                channel,
                note: data[1] & 0x7F,
                velocity: data[2] & 0x7F,
            })
        } else if msg_type == messages::NOTE_ON && data.len() >= 3 {
            let velocity = data[2] & 0x7F;
            // Note On with velocity 0 is equivalent to Note Off
            if velocity == 0 {
                Some(MidiMessage::NoteOff { channel, note: data[1] & 0x7F, velocity: 0 })
            } else {
                Some(MidiMessage::NoteOn { channel, note: data[1] & 0x7F, velocity })
            }
        } else if msg_type == messages::CONTROL_CHANGE && data.len() >= 3 {
            Some(MidiMessage::ControlChange {
                channel,
                controller: data[1] & 0x7F,
                value: data[2] & 0x7F,
            })
        } else if msg_type == messages::PROGRAM_CHANGE && data.len() >= 2 {
            Some(MidiMessage::ProgramChange { channel, program: data[1] & 0x7F })
        } else if msg_type == messages::PITCH_BEND && data.len() >= 3 {
            let lsb8 = data[1] & 0x7F;
            let msb8 = data[2] & 0x7F;
            proof {
                lemma_mask_low7(data@[1]);
                lemma_mask_low7(data@[2]);
            }
            let lsb = lsb8 as i16;
            let msb = msb8 as i16;
            let value = (msb * 128 + lsb) - 8192;
            Some(MidiMessage::PitchBend { channel, value })
        } else if msg_type == messages::CHANNEL_AFTERTOUCH && data.len() >= 2 {
            Some(MidiMessage::ChannelAftertouch { channel, pressure: data[1] & 0x7F })
        } else if msg_type == messages::POLY_AFTERTOUCH && data.len() >= 3 {
            Some(MidiMessage::PolyAftertouch {
                channel,
                note: data[1] & 0x7F,
                pressure: data[2] & 0x7F,
            })
        } else {
            let mut bytes: Vec<u8> = Vec::new();
            let mut i: usize = 0;
            while i < data.len()
                invariant
                    0 <= i <= data@.len(),
                    bytes@ == data@.subrange(0, i as int),
                decreases data@.len() - i,
            {
                bytes.push(data[i]);
                proof {
                    assert(bytes@ =~= data@.subrange(0, i as int + 1));
                }
                i = i + 1;
            }
            proof {
                assert(bytes@ =~= data@);
            }
            Some(MidiMessage::Unknown(bytes))
        }
    }

    /// Whether this is one of the clock transport messages.
    pub open spec fn spec_is_clock(self) -> bool {
        match self {
            MidiMessage::TimingClock
            | MidiMessage::Start
            | MidiMessage::Continue
            | MidiMessage::Stop => true,
            _ => false,
        }
    }

    /// Check if this is a clock-related message
    pub fn is_clock_message(&self) -> (r: bool)
        ensures
            r == self.spec_is_clock(),
    {
        match self {
            MidiMessage::TimingClock
            | MidiMessage::Start
            | MidiMessage::Continue
            | MidiMessage::Stop => true,
            _ => false,
        }
    }

    /// Whether MIDI learn captures this kind of message.
    pub open spec fn spec_learnable(self) -> bool {
        match self {
            MidiMessage::ControlChange { .. }
            | MidiMessage::NoteOn { .. }
            | MidiMessage::NoteOff { .. }
            | MidiMessage::ProgramChange { .. } => true,
            _ => false,
        }
    }
}

/// MIDI Learn state for capturing controller assignments
#[derive(Debug, Clone)]
pub struct MidiLearnCapture {
    /// The captured message (if any)
    pub message: Option<MidiMessage>,
    /// Whether we're actively learning
    pub active: bool,
}

impl MidiLearnCapture {
    /// Create a capture that is inactive and empty.
    pub fn new() -> (r: Self)
        ensures
            r.message is None,
            !r.active,
    {
        Self { message: None, active: false }
    }

    /// Start learning mode
    pub fn start(&mut self)
        ensures
            final(self).active,
            final(self).message is None,
    {
        self.active = true;
        self.message = None;
    }

    /// Stop learning mode
    pub fn stop(&mut self)
        ensures
            !final(self).active,
            final(self).message == old(self).message,
    {
        self.active = false;
    }

    /// Capture a message if in learn mode.
    /// Returns true if the message was captured: exactly when learning is
    /// active and the message is a note, CC, or program change.
    pub fn capture(&mut self, message: &MidiMessage) -> (r: bool)
        ensures
            r == (old(self).active && message.spec_learnable()),
            r ==> final(self).message == Some(*message) && !final(self).active,
            !r ==> *final(self) == *old(self),
    {
        if !self.active {
            return false;
        }

        // Only capture CC, Note, and Program Change for learning
        match message {
            MidiMessage::ControlChange { channel, controller, value } => {
                self.message = Some(MidiMessage::ControlChange {
                    channel: *channel,
                    controller: *controller,
                    value: *value,
                });
                self.active = false;
                true
            },
            MidiMessage::NoteOn { channel, note, velocity } => {
                self.message = Some(MidiMessage::NoteOn {
                    channel: *channel,
                    note: *note,
                    velocity: *velocity,
                });
                self.active = false;
                true
            },
            MidiMessage::NoteOff { channel, note, velocity } => {
                self.message = Some(MidiMessage::NoteOff {
                    channel: *channel,
                    note: *note,
                    velocity: *velocity,
                });
                self.active = false;
                true
            },
            MidiMessage::ProgramChange { channel, program } => {
                self.message = Some(MidiMessage::ProgramChange {
                    channel: *channel,
                    program: *program,
                });
                self.active = false;
                true
            },
            _ => false,
        }
    }
}

/// External clock synchronization state
#[derive(Debug, Clone, PartialEq)]
pub struct ExternalClockSync {
    /// Whether sync is enabled
    pub enabled: bool,
    /// Count of clock ticks received
    pub tick_count: u64,
    /// Whether we've received a start message
    pub running: bool,
}

impl ExternalClockSync {
    /// Create a sync state that is disabled, stopped, and at tick zero.
    pub fn new() -> (r: Self)
        ensures
            !r.enabled,
            r.tick_count == 0,
            !r.running,
    {
        Self { enabled: false, tick_count: 0, running: false }
    }

    /// Enable external clock sync
    pub fn enable(&mut self)
        ensures
            final(self).enabled,
            final(self).tick_count == 0,
            !final(self).running,
    {
        self.enabled = true;
        self.tick_count = 0;
        self.running = false;
    }

    /// Disable external clock sync
    pub fn disable(&mut self)
        ensures
            !final(self).enabled,
            final(self).tick_count == old(self).tick_count,
            final(self).running == old(self).running,
    {
        self.enabled = false;
    }

    /// The state after one message: Start zeros the count and runs,
    /// Continue resumes, Stop halts, and a clock pulse advances the count
    /// while running; everything else leaves the state alone.
    pub open spec fn spec_process(self, message: MidiMessage) -> ExternalClockSync {
        if !self.enabled {
            self
        } else {
            match message {
                MidiMessage::TimingClock => if self.running && self.tick_count < u64::MAX {
                    ExternalClockSync { tick_count: (self.tick_count + 1) as u64, ..self }
                } else {
                    self
                },
                MidiMessage::Start => ExternalClockSync { running: true, tick_count: 0, ..self },
                MidiMessage::Continue => ExternalClockSync { running: true, ..self },
                MidiMessage::Stop => ExternalClockSync { running: false, ..self },
                _ => self,
            }
        }
    }

    /// Process a clock message
    pub fn process(&mut self, message: &MidiMessage)
        ensures
            *final(self) == old(self).spec_process(*message),
    {
        if !self.enabled {
            return;
        }

        match message {
            MidiMessage::TimingClock => {
                if self.running && self.tick_count < u64::MAX {
                    self.tick_count = self.tick_count + 1;
                }
            },
            MidiMessage::Start => {
                self.running = true;
                self.tick_count = 0;
            },
            MidiMessage::Continue => {
                self.running = true;
            },
            MidiMessage::Stop => {
                self.running = false;
            },
            _ => {},
        }
    }

    /// Get current beat (based on 24 PPQN)
    pub fn current_beat(&self) -> (r: u64)
        ensures
            r == self.tick_count as int / 24,
    {
        self.tick_count / 24
    }

    /// Get current pulse within beat (0-23)
    pub fn current_pulse(&self) -> (r: u64)
        ensures
            r == self.tick_count as int % 24,
            r < 24,
    {
        self.tick_count % 24
    }
}

} // verus!
