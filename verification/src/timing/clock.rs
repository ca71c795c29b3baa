//! MIDI Clock implementation.
//!
//! This module provides a BPM-based MIDI clock that generates timing
//! messages at 24 PPQN (Pulses Per Quarter Note) as per the MIDI
//! specification. Tempo is held in thousandths of a beat per minute and
//! the current wallclock time is passed in by the caller.

use vstd::prelude::*;

use crate::midi::messages;

verus! {

/// Pulses Per Quarter Note - MIDI standard is 24
pub const PPQN: u32 = 24;

/// Lowest tempo the clock accepts, in thousandths of a beat per minute.
pub const MIN_MILLI_BPM: u32 = 20_000;

/// Highest tempo the clock accepts, in thousandths of a beat per minute.
pub const MAX_MILLI_BPM: u32 = 300_000;

/// MIDI Clock state
#[derive(Debug, Clone, Copy, PartialEq, Eq, Structural)]
pub enum ClockState {
    Stopped,
    Running,
    Paused,
}

/// Configuration for tempo ramping
#[derive(Debug, Clone, Copy, PartialEq, Eq, Structural)]
pub struct TempoRamp {
    /// Starting tempo in thousandths of a beat per minute
    pub from_milli_bpm: u32,
    /// Target tempo in thousandths of a beat per minute
    pub to_milli_bpm: u32,
    /// Duration of the ramp in microseconds
    pub duration_micros: u64,
    /// Wallclock microsecond when the ramp started
    pub start_micros: u64,
}

impl TempoRamp {
    /// The tempo at the given time: the target once the duration has
    /// passed, else the linear interpolation between the endpoints.
    pub open spec fn spec_tempo_at(self, now_micros: int) -> int {
        let elapsed = if now_micros >= self.start_micros {
            now_micros - self.start_micros
        } else {
            0
        };
        if elapsed >= self.duration_micros {
            self.to_milli_bpm as int
        } else if self.to_milli_bpm >= self.from_milli_bpm {
            self.from_milli_bpm
                + (self.to_milli_bpm - self.from_milli_bpm) * elapsed / self.duration_micros as int
        } else {
            self.from_milli_bpm
                - (self.from_milli_bpm - self.to_milli_bpm) * elapsed / self.duration_micros as int
        }
    }

    /// Calculate the current tempo based on elapsed time
    pub fn current_tempo(&self, now_micros: u64) -> (r: u32)
        requires
            self.from_milli_bpm <= MAX_MILLI_BPM,
            self.to_milli_bpm <= MAX_MILLI_BPM,
        ensures
            r == self.spec_tempo_at(now_micros as int),
            r <= MAX_MILLI_BPM,
            self.from_milli_bpm >= MIN_MILLI_BPM && self.to_milli_bpm >= MIN_MILLI_BPM
                ==> r >= MIN_MILLI_BPM,
    {
        let elapsed = if now_micros >= self.start_micros {
            now_micros - self.start_micros
        } else {
            0
        };
        if elapsed >= self.duration_micros {
            self.to_milli_bpm
        } else if self.to_milli_bpm >= self.from_milli_bpm {
            // elapsed < duration, so the interpolation stays between the
            // two endpoints.
            let delta: u64 = (self.to_milli_bpm - self.from_milli_bpm) as u64;
            proof {
                vstd::arithmetic::mul::lemma_mul_upper_bound(
                    delta as int, 0x8000_0000, elapsed as int, 0x1_0000_0000_0000_0000);
                vstd::arithmetic::mul::lemma_mul_nonnegative(delta as int, elapsed as int);
                lemma_interp_bounds(delta as int, elapsed as int, self.duration_micros as int);
            }
            let step: u128 = delta as u128 * elapsed as u128 / self.duration_micros as u128;
            self.from_milli_bpm + step as u32
        } else {
            let delta: u64 = (self.from_milli_bpm - self.to_milli_bpm) as u64;
            proof {
                vstd::arithmetic::mul::lemma_mul_upper_bound(
                    delta as int, 0x8000_0000, elapsed as int, 0x1_0000_0000_0000_0000);
                vstd::arithmetic::mul::lemma_mul_nonnegative(delta as int, elapsed as int);
                lemma_interp_bounds(delta as int, elapsed as int, self.duration_micros as int);
            }
            let step: u128 = delta as u128 * elapsed as u128 / self.duration_micros as u128;
            self.from_milli_bpm - step as u32
        }
    }

    /// Check if the ramp is complete
    pub fn is_complete(&self, now_micros: u64) -> (r: bool)
        ensures
            r == (now_micros >= self.start_micros
                && now_micros - self.start_micros >= self.duration_micros),
    {
        now_micros >= self.start_micros
            && now_micros - self.start_micros >= self.duration_micros
    }
}

/// For 0 <= e < dur and d >= 0, the scaled step d * e / dur lies between
/// 0 and d.
proof fn lemma_interp_bounds(d: int, e: int, dur: int)
    by (nonlinear_arith)
    requires
        0 <= e < dur,
        0 <= d <= 0x8000_0000,
    ensures
        0 <= d * e / dur <= d,
{
}

/// Tap tempo calculator
#[derive(Debug, Clone)]
pub struct TapTempo {
    /// Recent tap times, in milliseconds, oldest first
    taps: Vec<u64>,
    /// Maximum number of taps to average
    max_taps: usize,
    /// Maximum time between taps before resetting, in milliseconds
    timeout_ms: u64,
}

/// The tap ring after one tap at `now`: a stale ring (more than the
/// timeout since the last tap) restarts, the tap is appended, and the
/// oldest tap leaves once more than `max_taps` are held.
pub open spec fn spec_taps_after(taps: Seq<u64>, now: int, timeout: int, max: int) -> Seq<u64> {
    let kept = if taps.len() > 0 && now - taps.last() > timeout {
        Seq::<u64>::empty()
    } else {
        taps
    };
    let pushed = kept.push(now as u64);
    if pushed.len() > max {
        pushed.drop_first()
    } else {
        pushed
    }
}

/// The tempo a tap ring yields, in thousandths of a beat per minute:
/// `None` below two taps, else 60,000,000 divided by the average
/// millisecond gap, clamped to the tempo range. Simultaneous taps read as
/// the fastest tempo.
pub open spec fn spec_taps_bpm(taps: Seq<u64>) -> Option<u32> {
    if taps.len() < 2 {
        None
    } else {
        let span = taps.last() - taps.first();
        if span <= 0 {
            Some(MAX_MILLI_BPM)
        } else {
            let avg = span / (taps.len() - 1);
            if avg == 0 {
                Some(MAX_MILLI_BPM)
            } else {
                Some(crate::spec_clamp(60_000_000int / avg, MIN_MILLI_BPM as int,
                    MAX_MILLI_BPM as int) as u32)
            }
        }
    }
}

impl TapTempo {
    /// The recorded tap instants, in milliseconds, oldest first.
    pub closed spec fn spec_taps(self) -> Seq<u64> {
        self.taps@
    }

    /// The configured ring size.
    pub closed spec fn spec_max_taps(self) -> int {
        self.max_taps as int
    }

    /// The configured stale timeout in milliseconds.
    pub closed spec fn spec_timeout_ms(self) -> int {
        self.timeout_ms as int
    }

    /// Taps are recorded in nondecreasing order.
    pub open spec fn wf(self) -> bool {
        &&& forall|i: int, j: int| 0 <= i < j < self.spec_taps().len()
            ==> #[trigger] self.spec_taps()[i] <= #[trigger] self.spec_taps()[j]
        &&& self.spec_max_taps() >= 1
    }

    /// Create a new tap tempo calculator; a ring size of zero is lifted
    /// to one.
    pub fn new(max_taps: usize, timeout_ms: u64) -> (r: Self)
        ensures
            r.spec_taps().len() == 0,
            r.spec_max_taps() == if max_taps == 0 { 1int } else { max_taps as int },
            r.spec_timeout_ms() == timeout_ms,
            r.wf(),
    {
        Self {
            taps: Vec::new(),
            max_taps: if max_taps == 0 { 1 } else { max_taps },
            timeout_ms,
        }
    }

    /// Record a tap and return the calculated tempo if at least two taps
    /// are held, in thousandths of a beat per minute. A tap earlier than
    /// the last recorded one resets the ring.
    pub fn tap(&mut self, now_ms: u64) -> (r: Option<u32>)
        requires
            old(self).wf(),
        ensures
            final(self).wf(),
            final(self).spec_max_taps() == old(self).spec_max_taps(),
            final(self).spec_timeout_ms() == old(self).spec_timeout_ms(),
            old(self).spec_taps().len() == 0 || now_ms >= old(self).spec_taps().last()
                ==> final(self).spec_taps() == spec_taps_after(
                    old(self).spec_taps(), now_ms as int,
                    old(self).spec_timeout_ms(), old(self).spec_max_taps()),
            old(self).spec_taps().len() > 0 && now_ms < old(self).spec_taps().last()
                ==> final(self).spec_taps() == seq![now_ms],
            r == spec_taps_bpm(final(self).spec_taps()),
    {
        // Reset if the ring is stale or time ran backwards
        if self.taps.len() > 0 {
            let last = self.taps[self.taps.len() - 1];
            if now_ms < last || now_ms - last > self.timeout_ms {
                self.taps.clear();
            }
        }

        self.taps.push(now_ms);
        proof {
            assert(seq![now_ms] =~= Seq::<u64>::empty().push(now_ms));
        }

        // Keep only max_taps
        if self.taps.len() > self.max_taps {
            self.taps.remove(0);
        }

        // Need at least 2 taps to calculate a tempo
        if self.taps.len() < 2 {
            return None;
        }

        // Average interval over the ring is the whole span divided by the
        // number of gaps.
        let first = self.taps[0];
        let last = self.taps[self.taps.len() - 1];
        let span = if last >= first { last - first } else { 0 };
        if span == 0 {
            return Some(MAX_MILLI_BPM);
        }
        let gaps = (self.taps.len() - 1) as u64;
        let avg = span / gaps;
        if avg == 0 {
            return Some(MAX_MILLI_BPM);
        }
        Some(crate::clamp_u64(60_000_000 / avg, MIN_MILLI_BPM as u64, MAX_MILLI_BPM as u64) as u32)
    }

    /// Reset the tap tempo
    pub fn reset(&mut self)
        requires
            old(self).wf(),
        ensures
            final(self).spec_taps().len() == 0,
            final(self).spec_max_taps() == old(self).spec_max_taps(),
            final(self).spec_timeout_ms() == old(self).spec_timeout_ms(),
            final(self).wf(),
    {
        self.taps.clear();
    }
}

/// Evenly spaced taps yield the exact tempo of their interval: with every
/// gap equal to `interval_ms`, the computed tempo is 60,000,000 divided by
/// the interval (in thousandths of a beat per minute), clamped to the
/// tempo range.
pub proof fn lemma_even_taps_exact_bpm(taps: Seq<u64>, interval_ms: int)
    requires
        taps.len() >= 2,
        interval_ms > 0,
        forall|i: int| 0 <= i < taps.len() - 1
            ==> #[trigger] taps[i + 1] == taps[i] + interval_ms,
    ensures
        spec_taps_bpm(taps) == Some(crate::spec_clamp(
            60_000_000int / interval_ms, MIN_MILLI_BPM as int, MAX_MILLI_BPM as int) as u32),
{
    lemma_even_taps_span(taps, interval_ms);
    let gaps = taps.len() - 1;
    assert(taps.last() - taps.first() == gaps * interval_ms);
    vstd::arithmetic::div_mod::lemma_div_by_multiple(interval_ms, gaps as int);
    assert((gaps * interval_ms) / (gaps as int) == interval_ms) by {
        assert(interval_ms * gaps == gaps * interval_ms) by (nonlinear_arith);
    }
    assert(gaps * interval_ms > 0) by (nonlinear_arith)
        requires gaps >= 1 && interval_ms > 0;
}

/// The whole span of evenly spaced taps is the gap count times the
/// interval.
proof fn lemma_even_taps_span(taps: Seq<u64>, interval_ms: int)
    requires
        taps.len() >= 1,
        forall|i: int| 0 <= i < taps.len() - 1
            ==> #[trigger] taps[i + 1] == taps[i] + interval_ms,
    ensures
        taps.last() == taps.first() + (taps.len() - 1) * interval_ms,
    decreases taps.len(),
{
    if taps.len() > 1 {
        let prefix = taps.drop_last();
        assert forall|i: int| 0 <= i < prefix.len() - 1
            implies #[trigger] prefix[i + 1] == prefix[i] + interval_ms by {
            assert(taps[i + 1] == taps[i] + interval_ms);
        }
        lemma_even_taps_span(prefix, interval_ms);
        let n = taps.len() as int;
        let f = taps.first() as int;
        assert(prefix.first() == taps.first());
        assert(prefix.last() == taps[n - 2]);
        assert(prefix.len() == n - 1);
        assert(taps[n - 2] == f + (n - 2) * interval_ms);
        assert(taps.last() == taps[n - 2] + interval_ms) by {
            assert(taps[(n - 2) + 1] == taps[n - 2] + interval_ms);
        }
        assert(taps.last() == f + (n - 2) * interval_ms + interval_ms);
        assert((n - 2) * interval_ms + interval_ms == (n - 1) * interval_ms)
            by (nonlinear_arith);
        assert(taps.last() == f + (n - 1) * interval_ms);
    } else {
        assert(taps.len() == 1);
        assert(0int * interval_ms == 0) by (nonlinear_arith);
        assert((taps.len() - 1) as int == 0);
    }
}

/// MIDI Clock generator
#[derive(Debug, Clone)]
pub struct MidiClock {
    /// Base tempo in thousandths of a beat per minute
    milli_bpm: u32,
    /// Current clock state
    state: ClockState,
    /// Current pulse count within the beat (0-23)
    pulse: u32,
    /// Current beat count
    beat: u64,
    /// Wallclock microsecond of the last emitted pulse
    last_tick_micros: Option<u64>,
    /// Active tempo ramp
    tempo_ramp: Option<TempoRamp>,
    /// Tap tempo calculator
    tap_tempo: TapTempo,
}

impl MidiClock {
    /// Base tempo in thousandths of a beat per minute.
    pub closed spec fn spec_bpm(self) -> int {
        self.milli_bpm as int
    }

    /// Current transport state.
    pub closed spec fn spec_state(self) -> ClockState {
        self.state
    }

    /// Current pulse within the beat.
    pub closed spec fn spec_pulse(self) -> int {
        self.pulse as int
    }

    /// Current beat count.
    pub closed spec fn spec_beat(self) -> int {
        self.beat as int
    }

    /// Wallclock microsecond of the last emitted pulse.
    pub closed spec fn spec_last_tick(self) -> Option<u64> {
        self.last_tick_micros
    }

    /// The active ramp, if any.
    pub closed spec fn spec_ramp(self) -> Option<TempoRamp> {
        self.tempo_ramp
    }

    /// The tap ring.
    pub closed spec fn spec_taps(self) -> Seq<u64> {
        self.tap_tempo.spec_taps()
    }

    /// Tempo and ramp endpoints within the clamp range, pulses within the
    /// beat, and an ordered tap ring.
    pub open spec fn wf(self) -> bool {
        &&& MIN_MILLI_BPM <= self.spec_bpm() <= MAX_MILLI_BPM
        &&& self.spec_pulse() < PPQN
        &&& match self.spec_ramp() {
            Some(ramp) => MIN_MILLI_BPM <= ramp.from_milli_bpm <= MAX_MILLI_BPM
                && MIN_MILLI_BPM <= ramp.to_milli_bpm <= MAX_MILLI_BPM,
            None => true,
        }
        &&& self.spec_tap().wf()
    }

    /// The tap tempo calculator.
    pub closed spec fn spec_tap(self) -> TapTempo {
        self.tap_tempo
    }

    /// Create a new MIDI clock at the specified tempo (thousandths of a
    /// beat per minute), clamped to 20..=300 BPM.
    pub fn new(milli_bpm: u32) -> (r: Self)
        ensures
            r.wf(),
            r.spec_bpm() == crate::spec_clamp(milli_bpm as int,
                MIN_MILLI_BPM as int, MAX_MILLI_BPM as int),
            r.spec_state() == ClockState::Stopped,
            r.spec_pulse() == 0,
            r.spec_beat() == 0,
            r.spec_last_tick() is None,
            r.spec_ramp() is None,
            r.spec_taps().len() == 0,
    {
        Self {
            milli_bpm: crate::clamp_u32(milli_bpm, MIN_MILLI_BPM, MAX_MILLI_BPM),
            state: ClockState::Stopped,
            pulse: 0,
            beat: 0,
            last_tick_micros: None,
            tempo_ramp: None,
            tap_tempo: TapTempo::new(4, 2000),  // Average 4 taps, 2 second timeout
        }
    }

    /// The effective tempo at the given time: the ramp's interpolation
    /// while one is active, else the base tempo.
    pub open spec fn spec_bpm_at(self, now_micros: int) -> int {
        match self.spec_ramp() {
            Some(ramp) => ramp.spec_tempo_at(now_micros),
            None => self.spec_bpm(),
        }
    }

    /// Get the current tempo in thousandths of a beat per minute.
    pub fn bpm(&self, now_micros: u64) -> (r: u32)
        requires
            self.wf(),
        ensures
            r == self.spec_bpm_at(now_micros as int),
            MIN_MILLI_BPM <= r <= MAX_MILLI_BPM,
    {
        match &self.tempo_ramp {
            Some(ramp) => ramp.current_tempo(now_micros),
            None => self.milli_bpm,
        }
    }

    /// Set the tempo immediately, clamped to 20..=300 BPM; any active ramp
    /// is cancelled.
    pub fn set_bpm(&mut self, milli_bpm: u32)
        requires
            old(self).wf(),
        ensures
            final(self).wf(),
            final(self).spec_bpm() == crate::spec_clamp(milli_bpm as int,
                MIN_MILLI_BPM as int, MAX_MILLI_BPM as int),
            final(self).spec_ramp() is None,
            final(self).spec_state() == old(self).spec_state(),
            final(self).spec_pulse() == old(self).spec_pulse(),
            final(self).spec_beat() == old(self).spec_beat(),
            final(self).spec_last_tick() == old(self).spec_last_tick(),
            final(self).spec_taps() == old(self).spec_taps(),
    {
        self.milli_bpm = crate::clamp_u32(milli_bpm, MIN_MILLI_BPM, MAX_MILLI_BPM);
        self.tempo_ramp = None;
    }

    /// Nudge the tempo by a signed amount (thousandths of a beat per
    /// minute) relative to the effective tempo now; the result is clamped.
    pub fn nudge_bpm(&mut self, delta_milli_bpm: i32, now_micros: u64)
        requires
            old(self).wf(),
        ensures
            final(self).wf(),
            final(self).spec_bpm() == crate::spec_clamp(
                old(self).spec_bpm_at(now_micros as int) + delta_milli_bpm,
                MIN_MILLI_BPM as int, MAX_MILLI_BPM as int),
            final(self).spec_ramp() is None,
            final(self).spec_state() == old(self).spec_state(),
    {
        let current = self.bpm(now_micros);
        let target: i64 = current as i64 + delta_milli_bpm as i64;
        let clamped = crate::clamp_i64(target, MIN_MILLI_BPM as i64, MAX_MILLI_BPM as i64);
        self.set_bpm(clamped as u32);
    }

    /// Start a tempo ramp from the effective tempo now to the target over
    /// the given duration; a zero duration jumps immediately.
    pub fn ramp_to(&mut self, target_milli_bpm: u32, duration_micros: u64, now_micros: u64)
        requires
            old(self).wf(),
        ensures
            final(self).wf(),
            final(self).spec_ramp() == Some(TempoRamp {
                from_milli_bpm: old(self).spec_bpm_at(now_micros as int) as u32,
                to_milli_bpm: crate::spec_clamp(target_milli_bpm as int,
                    MIN_MILLI_BPM as int, MAX_MILLI_BPM as int) as u32,
                duration_micros,
                start_micros: now_micros,
            }),
            final(self).spec_bpm() == old(self).spec_bpm(),
            final(self).spec_state() == old(self).spec_state(),
    {
        let from = self.bpm(now_micros);
        self.tempo_ramp = Some(TempoRamp {
            from_milli_bpm: from,
            to_milli_bpm: crate::clamp_u32(target_milli_bpm, MIN_MILLI_BPM, MAX_MILLI_BPM),
            duration_micros,
            start_micros: now_micros,
        });
    }

    /// Record a tap (wallclock milliseconds) and adopt the computed tempo
    /// once at least two taps are held.
    pub fn tap(&mut self, now_ms: u64) -> (r: Option<u32>)
        requires
            old(self).wf(),
        ensures
            final(self).wf(),
            r == spec_taps_bpm(final(self).spec_taps()),
            match r {
                Some(bpm) => final(self).spec_bpm() == bpm && final(self).spec_ramp() is None,
                None => final(self).spec_bpm() == old(self).spec_bpm(),
            },
    {
        let got = self.tap_tempo.tap(now_ms);
        match got {
            Some(bpm) => {
                self.set_bpm(bpm);
                proof {
                    crate::lemma_clamp_fixed(bpm as int, MIN_MILLI_BPM as int, MAX_MILLI_BPM as int);
                }
                Some(bpm)
            },
            None => None,
        }
    }

    /// Get the current clock state
    pub fn state(&self) -> (r: ClockState)
        ensures
            r == self.spec_state(),
    {
        self.state
    }

    /// Get the current pulse within the beat (0-23)
    pub fn pulse(&self) -> (r: u32)
        ensures
            r == self.spec_pulse(),
    {
        self.pulse
    }

    /// Get the current beat count
    pub fn beat(&self) -> (r: u64)
        ensures
            r == self.spec_beat(),
    {
        self.beat
    }

    /// The microseconds between clock pulses at the effective tempo:
    /// 60,000,000,000 divided by (tempo in milli-BPM times 24).
    pub open spec fn spec_pulse_interval(self, now_micros: int) -> int {
        60_000_000_000int / (self.spec_bpm_at(now_micros) * 24)
    }

    /// Calculate the interval between clock pulses in microseconds.
    pub fn pulse_interval_micros(&self, now_micros: u64) -> (r: u64)
        requires
            self.wf(),
        ensures
            r == self.spec_pulse_interval(now_micros as int),
            r >= 1,
    {
        let bpm = self.bpm(now_micros);
        // At 24 PPQN, interval = 60 / (BPM * 24) seconds
        let den: u64 = bpm as u64 * 24;
        proof {
            vstd::arithmetic::div_mod::lemma_div_is_ordered_by_denominator(
                60_000_000_000, den as int, 7_200_000);
        }
        (60_000_000_000u64 / den) as u64
    }

    /// Start the clock - returns MIDI Start message
    pub fn start(&mut self, now_micros: u64) -> (r: [u8; 1])
        requires
            old(self).wf(),
        ensures
            final(self).wf(),
            r[0] == messages::START,
            final(self).spec_state() == ClockState::Running,
            final(self).spec_pulse() == 0,
            final(self).spec_beat() == 0,
            final(self).spec_last_tick() == Some(now_micros),
            final(self).spec_bpm() == old(self).spec_bpm(),
    {
        self.state = ClockState::Running;
        self.pulse = 0;
        self.beat = 0;
        self.last_tick_micros = Some(now_micros);
        [messages::START]
    }

    /// Stop the clock - returns MIDI Stop message
    pub fn stop(&mut self) -> (r: [u8; 1])
        requires
            old(self).wf(),
        ensures
            final(self).wf(),
            r[0] == messages::STOP,
            final(self).spec_state() == ClockState::Stopped,
            final(self).spec_pulse() == 0,
            final(self).spec_beat() == 0,
            final(self).spec_last_tick() is None,
            final(self).spec_bpm() == old(self).spec_bpm(),
    {
        self.state = ClockState::Stopped;
        self.pulse = 0;
        self.beat = 0;
        self.last_tick_micros = None;
        [messages::STOP]
    }

    /// Pause the clock (continue from current position) - returns MIDI
    /// Stop message
    pub fn pause(&mut self) -> (r: [u8; 1])
        requires
            old(self).wf(),
        ensures
            final(self).wf(),
            r[0] == messages::STOP,
            final(self).spec_state() == ClockState::Paused,
            final(self).spec_pulse() == old(self).spec_pulse(),
            final(self).spec_beat() == old(self).spec_beat(),
            final(self).spec_bpm() == old(self).spec_bpm(),
    {
        self.state = ClockState::Paused;
        [messages::STOP]
    }

    /// Continue from paused state - returns MIDI Continue message
    pub fn continue_playback(&mut self, now_micros: u64) -> (r: [u8; 1])
        requires
            old(self).wf(),
        ensures
            final(self).wf(),
            r[0] == messages::CONTINUE,
            old(self).spec_state() == ClockState::Paused ==> {
                &&& final(self).spec_state() == ClockState::Running
                &&& final(self).spec_last_tick() == Some(now_micros)
            },
            old(self).spec_state() != ClockState::Paused ==> *final(self) == *old(self),
            final(self).spec_pulse() == old(self).spec_pulse(),
            final(self).spec_beat() == old(self).spec_beat(),
    {
        if self.state == ClockState::Paused {
            self.state = ClockState::Running;
            self.last_tick_micros = Some(now_micros);
        }
        [messages::CONTINUE]
    }

    /// Check if it's time for the next clock pulse. Returns the clock
    /// message exactly when the clock is running and a whole pulse
    /// interval has elapsed since the last pulse; the pulse counter then
    /// advances, wrapping into the next beat at 24 pulses.
    pub fn tick(&mut self, now_micros: u64) -> (r: Option<[u8; 1]>)
        requires
            old(self).wf(),
            old(self).spec_beat() < u64::MAX,
        ensures
            final(self).wf(),
            old(self).spec_state() != ClockState::Running ==> {
                &&& r is None
                &&& *final(self) == *old(self)
            },
            // A pulse is emitted exactly when one interval (at the tempo
            // after any finished ramp commits) has passed since the last.
            old(self).spec_state() == ClockState::Running ==> (r is Some <==> {
                &&& old(self).spec_last_tick() matches Some(last)
                &&& now_micros >= last
                &&& now_micros - last >= final(self).spec_pulse_interval(now_micros as int)
            }),
            match r {
                Some(msg) => {
                    &&& msg[0] == messages::TIMING_CLOCK
                    &&& final(self).spec_last_tick() == Some(now_micros)
                    &&& (old(self).spec_pulse() + 1 < 24 ==> {
                        &&& final(self).spec_pulse() == old(self).spec_pulse() + 1
                        &&& final(self).spec_beat() == old(self).spec_beat()
                    })
                    &&& (old(self).spec_pulse() + 1 == 24 ==> {
                        &&& final(self).spec_pulse() == 0
                        &&& final(self).spec_beat() == old(self).spec_beat() + 1
                    })
                },
                None => {
                    &&& final(self).spec_pulse() == old(self).spec_pulse()
                    &&& final(self).spec_beat() == old(self).spec_beat()
                    &&& final(self).spec_last_tick() == old(self).spec_last_tick()
                },
            },
    {
        if self.state != ClockState::Running {
            return None;
        }

        // Commit a finished tempo ramp.
        let ramp_done = match &self.tempo_ramp {
            Some(ramp) => ramp.is_complete(now_micros),
            None => false,
        };
        if ramp_done {
            match &self.tempo_ramp {
                Some(ramp) => {
                    self.milli_bpm = ramp.to_milli_bpm;
                    self.tempo_ramp = None;
                },
                None => {},
            }
        }

        let interval = self.pulse_interval_micros(now_micros);

        match self.last_tick_micros {
            Some(last) => {
                if now_micros >= last && now_micros - last >= interval {
                    self.last_tick_micros = Some(now_micros);
                    if self.pulse + 1 >= PPQN {
                        self.pulse = 0;
                        self.beat = self.beat + 1;
                    } else {
                        self.pulse = self.pulse + 1;
                    }
                    Some([messages::TIMING_CLOCK])
                } else {
                    None
                }
            },
            None => None,
        }
    }

    /// Get the time until the next clock pulse, in microseconds; zero when
    /// not running or already due.
    pub fn time_until_next_pulse(&self, now_micros: u64) -> (r: u64)
        requires
            self.wf(),
        ensures
            self.spec_state() != ClockState::Running ==> r == 0,
            self.spec_state() == ClockState::Running ==> match self.spec_last_tick() {
                Some(last) => {
                    let elapsed = if now_micros >= last { now_micros - last } else { 0int };
                    r == if elapsed < self.spec_pulse_interval(now_micros as int) {
                        self.spec_pulse_interval(now_micros as int) - elapsed
                    } else {
                        0int
                    }
                },
                None => r == 0,
            },
    {
        if self.state != ClockState::Running {
            return 0;
        }

        let interval = self.pulse_interval_micros(now_micros);
        match self.last_tick_micros {
            Some(last) => {
                let elapsed = if now_micros >= last { now_micros - last } else { 0 };
                if elapsed < interval {
                    interval - elapsed
                } else {
                    0
                }
            },
            None => 0,
        }
    }
}

} // verus!
