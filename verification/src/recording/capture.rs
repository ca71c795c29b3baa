//! The note and region model for MIDI recording.
//!
//! Real-time capture from an input device is a collaborator's concern;
//! this module holds the recorded-note shape and punch regions it fills.

use vstd::prelude::*;

verus! {

/// Recording mode
#[derive(Debug, Clone, Copy, PartialEq, Eq, Structural)]
pub enum RecordMode {
    /// Replace existing notes
    Replace,
    /// Add to existing notes
    Overdub,
    /// Punch in/out at specified points
    Punch,
}

impl Default for RecordMode {
    /// Recording replaces by default.
    fn default() -> (r: Self)
        ensures
            r == RecordMode::Replace,
    {
        RecordMode::Replace
    }
}

/// Recording state
#[derive(Debug, Clone, Copy, PartialEq, Eq, Structural)]
pub enum RecordingState {
    /// Not recording
    Idle,
    /// Armed and waiting for input or start
    Armed,
    /// Actively recording
    Recording,
    /// Count-in before recording
    CountIn,
    /// Paused
    Paused,
}

impl Default for RecordingState {
    /// Recorders start idle.
    fn default() -> (r: Self)
        ensures
            r == RecordingState::Idle,
    {
        RecordingState::Idle
    }
}

/// A recorded note
#[derive(Debug, Clone, Copy, PartialEq, Eq, Structural)]
pub struct RecordedNote {
    /// MIDI channel (0-15)
    pub channel: u8,
    /// Note number (0-127)
    pub note: u8,
    /// Velocity (1-127)
    pub velocity: u8,
    /// Start tick (relative to recording start)
    pub start_tick: u64,
    /// Duration in ticks
    pub duration: u64,
}

impl RecordedNote {
    /// Create a new recorded note
    pub fn new(channel: u8, note: u8, velocity: u8, start_tick: u64, duration: u64)
        -> (r: Self)
        ensures
            r == (RecordedNote { channel, note, velocity, start_tick, duration }),
    {
        Self { channel, note, velocity, start_tick, duration }
    }

    /// The tick one past the note: its start plus its duration.
    pub fn end_tick(&self) -> (r: u64)
        requires
            self.start_tick + self.duration <= u64::MAX,
        ensures
            r == self.start_tick + self.duration,
    {
        self.start_tick + self.duration
    }
}

/// Punch region for punch in/out recording
#[derive(Debug, Clone, Copy, PartialEq, Eq, Structural)]
pub struct PunchRegion {
    /// Punch in tick
    pub in_tick: u64,
    /// Punch out tick
    pub out_tick: u64,
}

impl PunchRegion {
    /// Create a punch region; the bounds are ordered, so an inverted pair
    /// swaps.
    pub fn new(in_tick: u64, out_tick: u64) -> (r: Self)
        ensures
            r.in_tick == if in_tick <= out_tick { in_tick as int } else { out_tick as int },
            r.out_tick == if in_tick <= out_tick { out_tick as int } else { in_tick as int },
            r.in_tick <= r.out_tick,
    {
        if in_tick <= out_tick {
            Self { in_tick, out_tick }
        } else {
            Self { in_tick: out_tick, out_tick: in_tick }
        }
    }

    /// Whether a tick lies inside the region: at or after the punch in
    /// and strictly before the punch out.
    pub fn contains(&self, tick: u64) -> (r: bool)
        ensures
            r == (self.in_tick <= tick && tick < self.out_tick),
    {
        tick >= self.in_tick && tick < self.out_tick
    }
}

} // verus!
