//! Recording and export system.
//!
//! This module provides generator output freezing into static note
//! lists, the note model the recorder fills, and the track model the
//! MIDI-file exporter serializes. The file writing itself is a
//! collaborator's concern.

pub mod capture;
pub mod export;
pub mod freeze;
