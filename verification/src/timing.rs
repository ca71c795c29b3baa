//! Timing and clock module.
//!
//! This module provides MIDI clock generation and timing utilities for the
//! sequencer. The clock itself never reads the wallclock: every method that
//! depends on the current time takes it as a microsecond (or millisecond)
//! argument, so the whole tempo logic is deterministic.

pub mod clock;
