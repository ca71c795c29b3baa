//! Scheduling and generation core of an algorithmic MIDI sequencer.
//!
//! The crate models musical time in ticks (24 pulses per quarter note by
//! default), converts ticks to microseconds under an integer tempo given in
//! thousandths of a beat per minute, and drives tick-based generators whose
//! output is bounded by a musical scale.

#![verifier::loop_isolation(false)]

pub mod arrangement;
pub mod audio;
pub mod config;
pub mod control;
pub mod generators;
pub mod midi;
pub mod sequencer;
pub mod music;
pub mod recording;
pub mod rng;
pub mod text;
pub mod timing;
pub mod ui;

use vstd::prelude::*;

verus! {

/// The 64-bit saturating sum of two nonnegative quantities.
pub open spec fn spec_sat_add(a: int, b: int) -> int {
    if a + b > u64::MAX { u64::MAX as int } else { a + b }
}

/// `x` forced into `lo..=hi`.
pub open spec fn spec_clamp(x: int, lo: int, hi: int) -> int {
    if x < lo { lo } else if x > hi { hi } else { x }
}

/// Clamp a 32-bit value into `lo..=hi`.
pub fn clamp_u32(x: u32, lo: u32, hi: u32) -> (r: u32)
    requires
        lo <= hi,
    ensures
        r == spec_clamp(x as int, lo as int, hi as int),
{
    if x < lo { lo } else if x > hi { hi } else { x }
}

/// A value already inside the range is unchanged by clamping.
pub proof fn lemma_clamp_fixed(x: int, lo: int, hi: int)
    requires
        lo <= x <= hi,
    ensures
        spec_clamp(x, lo, hi) == x,
{
}

/// Clamp a 64-bit value into `lo..=hi`.
pub fn clamp_u64(x: u64, lo: u64, hi: u64) -> (r: u64)
    requires
        lo <= hi,
    ensures
        r == spec_clamp(x as int, lo as int, hi as int),
{
    if x < lo { lo } else if x > hi { hi } else { x }
}

/// Clamp a signed 64-bit value into `lo..=hi`.
pub fn clamp_i64(x: i64, lo: i64, hi: i64) -> (r: i64)
    requires
        lo <= hi,
    ensures
        r == spec_clamp(x as int, lo as int, hi as int),
{
    if x < lo { lo } else if x > hi { hi } else { x }
}

/// Clamp a byte into `lo..=hi`.
pub fn clamp_u8(x: u8, lo: u8, hi: u8) -> (r: u8)
    requires
        lo <= hi,
    ensures
        r == spec_clamp(x as int, lo as int, hi as int),
{
    if x < lo { lo } else if x > hi { hi } else { x }
}

/// Clamp a signed byte into `lo..=hi`.
pub fn clamp_i8(x: i8, lo: i8, hi: i8) -> (r: i8)
    requires
        lo <= hi,
    ensures
        r == spec_clamp(x as int, lo as int, hi as int),
{
    if x < lo { lo } else if x > hi { hi } else { x }
}

/// Clamp a 16-bit value into `lo..=hi`.
pub fn clamp_u16(x: u16, lo: u16, hi: u16) -> (r: u16)
    requires
        lo <= hi,
    ensures
        r == spec_clamp(x as int, lo as int, hi as int),
{
    if x < lo { lo } else if x > hi { hi } else { x }
}

/// Clamp a signed 16-bit value into `lo..=hi`.
pub fn clamp_i16(x: i16, lo: i16, hi: i16) -> (r: i16)
    requires
        lo <= hi,
    ensures
        r == spec_clamp(x as int, lo as int, hi as int),
{
    if x < lo { lo } else if x > hi { hi } else { x }
}

/// Clamp a signed 32-bit value into `lo..=hi`.
pub fn clamp_i32(x: i32, lo: i32, hi: i32) -> (r: i32)
    requires
        lo <= hi,
    ensures
        r == spec_clamp(x as int, lo as int, hi as int),
{
    if x < lo { lo } else if x > hi { hi } else { x }
}

} // verus!
