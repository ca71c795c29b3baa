//! The transport position the front end displays.

use vstd::prelude::*;

verus! {

/// A bar:beat:tick display position, one-indexed for bars and beats.
#[derive(Debug, Clone, Copy, PartialEq, Eq, Structural)]
pub struct PositionWidget {
    /// One-indexed bar
    pub bar: u64,
    /// One-indexed beat
    pub beat: u64,
    /// Tick within the beat
    pub tick: u64,
}

impl PositionWidget {
    /// Create a new position widget.
    pub fn new(bar: u64, beat: u64, tick: u64) -> (r: Self)
        ensures
            r == (PositionWidget { bar, beat, tick }),
    {
        Self { bar, beat, tick }
    }

    /// The display position of an absolute tick: one-indexed bar and
    /// beat, and the tick within the beat.
    pub fn from_ticks(ticks: u64, ppqn: u32, beats_per_bar: u8) -> (r: Self)
        requires
            ppqn >= 1,
            beats_per_bar >= 1,
        ensures
            r.bar == crate::spec_clamp(
                ticks as int / (ppqn as int * beats_per_bar as int) + 1, 0, u64::MAX as int),
            r.beat == (ticks as int % (ppqn as int * beats_per_bar as int)) / ppqn as int + 1,
            r.tick == ticks as int % ppqn as int,
    {
        let ticks_per_beat = ppqn as u64;
        proof {
            vstd::arithmetic::mul::lemma_mul_strictly_positive(
                ppqn as int, beats_per_bar as int);
            vstd::arithmetic::mul::lemma_mul_upper_bound(
                ppqn as int, 0x1_0000_0000, beats_per_bar as int, 256);
            vstd::arithmetic::div_mod::lemma_div_nonincreasing(
                ticks as int, ppqn as int * beats_per_bar as int);
            vstd::arithmetic::div_mod::lemma_div_pos_is_pos(
                ticks as int, ppqn as int * beats_per_bar as int);
        }
        let ticks_per_bar = ticks_per_beat * beats_per_bar as u64;

        let q = ticks / ticks_per_bar;
        let bar = if q < u64::MAX { q + 1 } else { u64::MAX };
        let beat = (ticks % ticks_per_bar) / ticks_per_beat + 1;
        let tick = ticks % ticks_per_beat;

        Self { bar, beat, tick }
    }
}

} // verus!
