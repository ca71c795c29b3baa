//! The in-memory shape of the persisted configuration.
//!
//! Parsing the configuration files and watching them for changes are
//! collaborator concerns; the sequencer core accepts these fully parsed
//! structures.

use vstd::prelude::*;

verus! {

/// Reference to a clip by file or name.
#[derive(Debug, PartialEq)]
pub struct ClipReference {
    /// File path to the clip (relative to the song file)
    pub file: Option<String>,
    /// Clip name/identifier
    pub name: Option<String>,
}

/// A track's configured state: a plain word, a clip choice, or a
/// detailed record.
#[derive(Debug, PartialEq)]
pub enum TrackState {
    /// Simple state: "active", "muted", "solo"
    Simple(String),
    /// Clip selection by name
    Clip(String),
    /// Detailed state configuration
    Detailed(TrackStateConfig),
}

/// Detailed track state configuration
#[derive(Debug, PartialEq)]
pub struct TrackStateConfig {
    /// Whether the track is muted
    pub muted: bool,
    /// Whether the track is soloed
    pub solo: bool,
    /// Active clip name
    pub clip: Option<String>,
    /// Generator to use (overrides the track default)
    pub generator: Option<String>,
}

impl TrackState {
    /// Whether this state plays: the words "active" and "solo", any clip
    /// choice, and any detailed record that is not muted.
    pub fn is_active(&self) -> (r: bool)
        ensures
            r == match *self {
                TrackState::Simple(ref s) => s@ == "active"@ || s@ == "solo"@,
                TrackState::Clip(_) => true,
                TrackState::Detailed(ref config) => !config.muted,
            },
    {
        match self {
            TrackState::Simple(s) => {
                crate::text::str_eq(s.as_str(), "active")
                    || crate::text::str_eq(s.as_str(), "solo")
            },
            TrackState::Clip(_) => true,
            TrackState::Detailed(config) => !config.muted,
        }
    }

    /// Whether this state is muted: the word "muted" or a muted record.
    pub fn is_muted(&self) -> (r: bool)
        ensures
            r == match *self {
                TrackState::Simple(ref s) => s@ == "muted"@,
                TrackState::Clip(_) => false,
                TrackState::Detailed(ref config) => config.muted,
            },
    {
        match self {
            TrackState::Simple(s) => crate::text::str_eq(s.as_str(), "muted"),
            TrackState::Clip(_) => false,
            TrackState::Detailed(config) => config.muted,
        }
    }

    /// The clip name this state picks, if any.
    pub fn clip_name(&self) -> (r: Option<&str>)
        ensures
            match *self {
                TrackState::Simple(_) => r is None,
                TrackState::Clip(ref s) => (r matches Some(name) && name@ == s@),
                TrackState::Detailed(ref config) => match config.clip {
                    Some(ref s) => (r matches Some(name) && name@ == s@),
                    None => r is None,
                },
            },
    {
        match self {
            TrackState::Simple(_) => None,
            TrackState::Clip(s) => Some(s.as_str()),
            TrackState::Detailed(config) => match &config.clip {
                Some(s) => Some(s.as_str()),
                None => None,
            },
        }
    }
}

/// MIDI device configuration
#[derive(Debug, PartialEq)]
pub struct MidiDeviceConfig {
    /// Device name to connect to
    pub device: Option<String>,
    /// Input channel filter (if any)
    pub input_channel: Option<u8>,
}

impl Default for MidiDeviceConfig {
    /// No device chosen and no channel filter.
    fn default() -> (r: Self)
        ensures
            r.device is None,
            r.input_channel is None,
    {
        Self { device: None, input_channel: None }
    }
}

} // verus!
