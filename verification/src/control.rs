//! Controller mapping: MIDI bindings for notes, controllers and program
//! changes.
//!
//! The keyboard and action layers that drive the sequencer live outside
//! the core; this module holds the binding model they match messages
//! against.

pub mod midi_map;
