//! MIDI status byte constants.

use vstd::prelude::*;

verus! {

// Channel Voice Messages (upper nibble, lower nibble is channel 0-15)
pub const NOTE_OFF: u8 = 0x80;
pub const NOTE_ON: u8 = 0x90;
pub const POLY_AFTERTOUCH: u8 = 0xA0;
pub const CONTROL_CHANGE: u8 = 0xB0;
pub const PROGRAM_CHANGE: u8 = 0xC0;
pub const CHANNEL_AFTERTOUCH: u8 = 0xD0;
pub const PITCH_BEND: u8 = 0xE0;

// System Real-Time Messages
pub const TIMING_CLOCK: u8 = 0xF8;
pub const START: u8 = 0xFA;
pub const CONTINUE: u8 = 0xFB;
pub const STOP: u8 = 0xFC;

// System Common Messages
pub const SYSEX_START: u8 = 0xF0;
pub const SYSEX_END: u8 = 0xF7;

} // verus!
