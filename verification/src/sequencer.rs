//! Sequencer core for scheduling and playing MIDI events.
//!
//! This module provides the core sequencing infrastructure:
//! - Event scheduler with microsecond-precision timing
//! - Track system for multi-channel output
//! - Clip system for sequenced and generated content
//! - Pattern triggering with quantization
//!
//! Tempo is carried as thousandths of a beat per minute, so that tick to
//! microsecond conversion is exact integer arithmetic: one tick lasts
//! `60_000_000_000 / (tempo_milli_bpm * ppqn)` microseconds.

pub mod clip;
pub mod scheduler;
pub mod track;
pub mod trigger;

use vstd::prelude::*;

verus! {

/// Microseconds a span of ticks lasts at the given tempo (thousandths of a
/// beat per minute) and resolution, saturating at the 64-bit limit.
pub open spec fn spec_ticks_to_micros(ticks: int, tempo_milli_bpm: int, ppqn: int) -> int {
    let exact = ticks * 60_000_000_000 / (tempo_milli_bpm * ppqn);
    if exact > u64::MAX { u64::MAX as int } else { exact }
}

/// Ticks that fit in a span of microseconds at the given tempo and
/// resolution, saturating at the 64-bit limit.
pub open spec fn spec_micros_to_ticks(micros: int, tempo_milli_bpm: int, ppqn: int) -> int {
    let exact = micros * tempo_milli_bpm * ppqn / 60_000_000_000;
    if exact > u64::MAX { u64::MAX as int } else { exact }
}

/// Timing information for the sequencer
#[derive(Debug, Clone, Copy, PartialEq, Eq, Structural)]
pub struct SequencerTiming {
    /// Current tempo in thousandths of a beat per minute
    pub tempo_milli_bpm: u32,
    /// Ticks per quarter note
    pub ppqn: u32,
    /// Current position in ticks from start
    pub position_ticks: u64,
    /// Beats per bar (time signature numerator)
    pub beats_per_bar: u8,
    /// Beat unit (time signature denominator, 4 = quarter note)
    pub beat_unit: u8,
}

impl Default for SequencerTiming {
    /// 120 BPM, 24 PPQN, 4/4, at position zero.
    fn default() -> (r: Self)
        ensures
            r == SequencerTiming::spec_default(),
    {
        Self {
            tempo_milli_bpm: 120_000,
            ppqn: 24,
            position_ticks: 0,
            beats_per_bar: 4,
            beat_unit: 4,
        }
    }
}

impl SequencerTiming {
    /// The default timing: 120 BPM, 24 PPQN, 4/4, position zero.
    pub open spec fn spec_default() -> SequencerTiming {
        SequencerTiming {
            tempo_milli_bpm: 120_000,
            ppqn: 24,
            position_ticks: 0,
            beats_per_bar: 4,
            beat_unit: 4,
        }
    }

    /// Tempo within the clamp range, at least one pulse per beat, and a
    /// nonempty bar: what every constructor establishes and every method
    /// preserves.
    pub open spec fn wf(self) -> bool {
        &&& 20_000 <= self.tempo_milli_bpm <= 300_000
        &&& 1 <= self.ppqn
        &&& 1 <= self.beats_per_bar
    }

    /// Create new timing with specified tempo, clamped to 20..=300 BPM.
    pub fn with_tempo(tempo_milli_bpm: u32) -> (r: Self)
        ensures
            r == (SequencerTiming {
                tempo_milli_bpm: crate::spec_clamp(tempo_milli_bpm as int, 20_000, 300_000) as u32,
                ..SequencerTiming::spec_default()
            }),
            r.wf(),
    {
        Self {
            tempo_milli_bpm: crate::clamp_u32(tempo_milli_bpm, 20_000, 300_000),
            ppqn: 24,
            position_ticks: 0,
            beats_per_bar: 4,
            beat_unit: 4,
        }
    }

    /// Get ticks per bar
    pub fn ticks_per_bar(&self) -> (r: u64)
        requires
            self.wf(),
        ensures
            r == self.ppqn as int * self.beats_per_bar as int,
            1 <= r,
            r <= 0x100_0000_0000,
    {
        proof {
            vstd::arithmetic::mul::lemma_mul_strictly_positive(
                self.ppqn as int, self.beats_per_bar as int);
            vstd::arithmetic::mul::lemma_mul_upper_bound(
                self.ppqn as int, 0x1_0000_0000, self.beats_per_bar as int, 256);
        }
        self.ppqn as u64 * self.beats_per_bar as u64
    }

    /// Get ticks per beat
    pub fn ticks_per_beat(&self) -> (r: u64)
        ensures
            r == self.ppqn,
    {
        self.ppqn as u64
    }

    /// Convert ticks to microseconds at current tempo
    pub fn ticks_to_micros(&self, ticks: u64) -> (r: u64)
        requires
            self.wf(),
        ensures
            r == spec_ticks_to_micros(ticks as int, self.tempo_milli_bpm as int, self.ppqn as int),
    {
        let num: u128 = ticks as u128 * 60_000_000_000u128;
        proof {
            vstd::arithmetic::mul::lemma_mul_strictly_positive(
                self.tempo_milli_bpm as int, self.ppqn as int);
            vstd::arithmetic::mul::lemma_mul_upper_bound(
                self.tempo_milli_bpm as int, 300_000, self.ppqn as int, 0x1_0000_0000);
        }
        let den: u128 = self.tempo_milli_bpm as u128 * self.ppqn as u128;
        let q = num / den;
        if q > u64::MAX as u128 {
            u64::MAX
        } else {
            q as u64
        }
    }

    /// Convert microseconds to ticks at current tempo
    pub fn micros_to_ticks(&self, micros: u64) -> (r: u64)
        requires
            self.wf(),
        ensures
            r == spec_micros_to_ticks(micros as int, self.tempo_milli_bpm as int, self.ppqn as int),
    {
        proof {
            vstd::arithmetic::mul::lemma_mul_upper_bound(
                micros as int, u64::MAX as int, self.tempo_milli_bpm as int, 300_000);
            vstd::arithmetic::mul::lemma_mul_nonnegative(micros as int, self.tempo_milli_bpm as int);
            vstd::arithmetic::mul::lemma_mul_upper_bound(
                micros as int * self.tempo_milli_bpm as int,
                u64::MAX as int * 300_000, self.ppqn as int, 0x1_0000_0000);
            vstd::arithmetic::mul::lemma_mul_nonnegative(
                micros as int * self.tempo_milli_bpm as int, self.ppqn as int);
        }
        let num: u128 = micros as u128 * self.tempo_milli_bpm as u128 * self.ppqn as u128;
        let q = num / 60_000_000_000u128;
        if q > u64::MAX as u128 {
            u64::MAX
        } else {
            q as u64
        }
    }

    /// Get current bar number (0-indexed)
    pub fn current_bar(&self) -> (r: u64)
        requires
            self.wf(),
        ensures
            r == self.position_ticks as int / (self.ppqn as int * self.beats_per_bar as int),
    {
        self.position_ticks / self.ticks_per_bar()
    }

    /// Get current beat within bar (0-indexed)
    pub fn current_beat(&self) -> (r: u64)
        requires
            self.wf(),
        ensures
            r == (self.position_ticks as int % (self.ppqn as int * self.beats_per_bar as int))
                / self.ppqn as int,
    {
        (self.position_ticks % self.ticks_per_bar()) / self.ticks_per_beat()
    }

    /// Get current tick within beat
    pub fn current_tick(&self) -> (r: u64)
        requires
            self.wf(),
        ensures
            r == self.position_ticks as int % self.ppqn as int,
    {
        self.position_ticks % self.ticks_per_beat()
    }

    /// Advance position by specified ticks
    pub fn advance(&mut self, ticks: u64)
        requires
            old(self).position_ticks + ticks <= u64::MAX,
        ensures
            *final(self) == (SequencerTiming {
                position_ticks: (old(self).position_ticks + ticks) as u64,
                ..*old(self)
            }),
    {
        self.position_ticks = self.position_ticks + ticks;
    }

    /// Reset position to beginning
    pub fn reset(&mut self)
        ensures
            *final(self) == (SequencerTiming { position_ticks: 0, ..*old(self) }),
    {
        self.position_ticks = 0;
    }

    /// Ticks until the next bar boundary: zero exactly on a boundary.
    pub open spec fn spec_ticks_to_next_bar(self) -> int {
        let ticks_per_bar = self.ppqn as int * self.beats_per_bar as int;
        let into_bar = self.position_ticks as int % ticks_per_bar;
        if into_bar == 0 {
            0
        } else {
            ticks_per_bar - into_bar
        }
    }

    /// Get ticks until next bar boundary
    pub fn ticks_to_next_bar(&self) -> (r: u64)
        requires
            self.wf(),
        ensures
            r == self.spec_ticks_to_next_bar(),
            self.position_ticks as int % (self.ppqn as int * self.beats_per_bar as int) == 0
                ==> r == 0,
    {
        let ticks_per_bar = self.ticks_per_bar();
        let into_bar = self.position_ticks % ticks_per_bar;
        if into_bar == 0 {
            0
        } else {
            ticks_per_bar - into_bar
        }
    }

    /// Ticks until the next beat boundary: zero exactly on a boundary.
    pub open spec fn spec_ticks_to_next_beat(self) -> int {
        let into_beat = self.position_ticks as int % self.ppqn as int;
        if into_beat == 0 {
            0
        } else {
            self.ppqn - into_beat
        }
    }

    /// Get ticks until next beat boundary
    pub fn ticks_to_next_beat(&self) -> (r: u64)
        requires
            self.wf(),
        ensures
            r == self.spec_ticks_to_next_beat(),
    {
        let ticks_per_beat = self.ticks_per_beat();
        let into_beat = self.position_ticks % ticks_per_beat;
        if into_beat == 0 {
            0
        } else {
            ticks_per_beat - into_beat
        }
    }
}

} // verus!
