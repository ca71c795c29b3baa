//! The audio collaborator's error and configuration model.
//!
//! The audio engine itself (device handling and rendering) lives outside
//! the verified core.

pub mod output;

use vstd::prelude::*;

verus! {

/// An error the audio collaborator reports.
#[derive(Debug, PartialEq)]
pub enum AudioError {
    /// Failed to initialize audio
    InitFailed(String),
    /// Failed to load a soundfont
    SoundfontLoadFailed(String),
    /// Failed to start the audio stream
    StreamFailed(String),
    /// Failed to acquire a lock
    LockFailed,
    /// No audio device available
    NoDevice,
    /// Invalid configuration
    InvalidConfig(String),
}

} // verus!
