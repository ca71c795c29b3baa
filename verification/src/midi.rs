//! MIDI message model: byte constants, parsing, learn capture, and
//! external clock synchronization.
//!
//! Sending bytes to a device is a collaborator's concern; the sink trait
//! here is the interface the sequencer core drives.

pub mod input;
pub mod messages;

use vstd::prelude::*;

verus! {

/// An error raised by a MIDI backend when a message cannot be sent.
#[derive(Debug, Clone, PartialEq, Eq)]
pub struct MidiSendError {
    /// What the backend reported.
    pub message: String,
}

/// Trait for MIDI output implementations.
///
/// This trait abstracts over different MIDI backends, providing a unified
/// interface for sending MIDI messages with optional timestamps. Backends
/// implement it outside the verified core.
pub trait MidiOutput {
    /// Send a MIDI message immediately.
    fn send(&mut self, message: &[u8]) -> Result<(), MidiSendError>;

    /// Send a MIDI message at a specific timestamp in microseconds
    /// (host time).
    fn send_at(&mut self, message: &[u8], timestamp: u64) -> Result<(), MidiSendError>;
}

} // verus!
