//! Clip freezing for capturing generator output.
//!
//! Converts real-time generator output to static note lists that can be
//! saved and edited: note ons open active notes, matching note offs close
//! them into frozen notes, and the capture ends once the configured
//! length has passed.

use vstd::prelude::*;

use crate::generators::MidiEvent;

verus! {

/// Options for freezing
#[derive(Debug, Clone, Copy, PartialEq, Eq, Structural)]
pub struct FreezeOptions {
    /// Length to freeze in ticks (used when no bar count is set)
    pub length_ticks: u64,
    /// Number of bars to freeze
    pub length_bars: Option<u32>,
    /// Include note velocities (else they freeze at a fixed value)
    pub include_velocity: bool,
    /// Quantize grid in ticks (None = no quantization)
    pub quantize_grid: Option<u32>,
    /// Merge overlapping notes
    pub merge_notes: bool,
    /// Remove notes shorter than this many ticks
    pub min_note_length: u32,
    /// PPQN for bar calculations
    pub ppqn: u32,
    /// Beats per bar
    pub beats_per_bar: u32,
}

impl Default for FreezeOptions {
    /// Four bars at 24 PPQN in 4/4, velocities kept, no quantization.
    fn default() -> (r: Self)
        ensures
            r == FreezeOptions::spec_default(),
    {
        Self {
            length_ticks: 0,
            length_bars: Some(4),
            include_velocity: true,
            quantize_grid: None,
            merge_notes: false,
            min_note_length: 1,
            ppqn: 24,
            beats_per_bar: 4,
        }
    }
}

impl FreezeOptions {
    /// See `Default::default`.
    pub open spec fn spec_default() -> FreezeOptions {
        FreezeOptions {
            length_ticks: 0,
            length_bars: Some(4),
            include_velocity: true,
            quantize_grid: None,
            merge_notes: false,
            min_note_length: 1,
            ppqn: 24,
            beats_per_bar: 4,
        }
    }

    /// Create options freezing a whole number of bars.
    pub fn bars(bars: u32, ppqn: u32, beats_per_bar: u32) -> (r: Self)
        ensures
            r == (FreezeOptions {
                length_bars: Some(bars),
                length_ticks: (bars as int * beats_per_bar as int * ppqn as int) as u64,
                ppqn,
                beats_per_bar,
                ..FreezeOptions::spec_default()
            }),
    {
        proof {
            vstd::arithmetic::mul::lemma_mul_nonnegative(bars as int, beats_per_bar as int);
            vstd::arithmetic::mul::lemma_mul_upper_bound(
                bars as int, 0x1_0000_0000, beats_per_bar as int, 0x1_0000_0000);
            vstd::arithmetic::mul::lemma_mul_nonnegative(
                bars as int * beats_per_bar as int, ppqn as int);
            vstd::arithmetic::mul::lemma_mul_upper_bound(
                bars as int * beats_per_bar as int, 0x1_0000_0000_0000_0000,
                ppqn as int, 0x1_0000_0000);
        }
        let ticks_wide: u128 = bars as u128 * beats_per_bar as u128 * ppqn as u128;
        Self {
            length_bars: Some(bars),
            length_ticks: ticks_wide as u64,
            include_velocity: true,
            quantize_grid: None,
            merge_notes: false,
            min_note_length: 1,
            ppqn,
            beats_per_bar,
        }
    }

    /// Create options freezing a span of ticks.
    pub fn ticks(ticks: u64) -> (r: Self)
        ensures
            r == (FreezeOptions {
                length_ticks: ticks,
                length_bars: None,
                ..FreezeOptions::spec_default()
            }),
    {
        Self {
            length_ticks: ticks,
            length_bars: None,
            include_velocity: true,
            quantize_grid: None,
            merge_notes: false,
            min_note_length: 1,
            ppqn: 24,
            beats_per_bar: 4,
        }
    }

    /// The total ticks to capture: bars times the bar length when a bar
    /// count is set, else the raw tick length.
    pub open spec fn spec_total_ticks(self) -> int {
        match self.length_bars {
            Some(bars) => bars as int * self.beats_per_bar as int * self.ppqn as int,
            None => self.length_ticks as int,
        }
    }

    /// Calculate total ticks
    pub fn total_ticks(&self) -> (r: u64)
        requires
            self.spec_total_ticks() <= u64::MAX,
        ensures
            r == self.spec_total_ticks(),
    {
        match self.length_bars {
            Some(bars) => {
                proof {
                    vstd::arithmetic::mul::lemma_mul_nonnegative(
                        bars as int, self.beats_per_bar as int);
                    vstd::arithmetic::mul::lemma_mul_nonnegative(
                        bars as int * self.beats_per_bar as int, self.ppqn as int);
                    vstd::arithmetic::mul::lemma_mul_upper_bound(
                        bars as int, 0x1_0000_0000, self.beats_per_bar as int, 0x1_0000_0000);
                    vstd::arithmetic::mul::lemma_mul_upper_bound(
                        bars as int * self.beats_per_bar as int, 0x1_0000_0000_0000_0000,
                        self.ppqn as int, 0x1_0000_0000);
                }
                (bars as u128 * self.beats_per_bar as u128 * self.ppqn as u128) as u64
            },
            None => self.length_ticks,
        }
    }
}

/// A frozen note
#[derive(Debug, Clone, Copy, PartialEq, Eq, Structural)]
pub struct FrozenNote {
    /// MIDI channel
    pub channel: u8,
    /// Note number
    pub note: u8,
    /// Velocity
    pub velocity: u8,
    /// Start tick
    pub start_tick: u64,
    /// Duration in ticks
    pub duration: u64,
}

impl FrozenNote {
    /// Create from a note-on event and a duration.
    pub fn from_events(note_on: &MidiEvent, duration: u64) -> (r: Self)
        ensures
            r == (FrozenNote {
                channel: note_on.channel,
                note: note_on.note,
                velocity: note_on.velocity,
                start_tick: note_on.start_tick,
                duration,
            }),
    {
        Self {
            channel: note_on.channel,
            note: note_on.note,
            velocity: note_on.velocity,
            start_tick: note_on.start_tick,
            duration,
        }
    }

    /// The tick one past the note: its start plus its duration.
    pub fn end_tick(&self) -> (r: u64)
        requires
            self.start_tick + self.duration <= u64::MAX,
        ensures
            r == self.start_tick + self.duration,
    {
        self.start_tick + self.duration
    }
}

/// Freezer state
#[derive(Debug, Clone, Copy, PartialEq, Eq, Structural)]
pub enum FreezerState {
    /// Idle, not freezing
    Idle,
    /// Actively capturing
    Capturing,
    /// Finished capture
    Complete,
}

/// A note whose on has been seen and whose off is pending.
#[derive(Debug, Clone, Copy, PartialEq, Eq, Structural)]
struct ActiveNote {
    channel: u8,
    note: u8,
    velocity: u8,
    start_tick: u64,
}

/// A tick snapped to the nearest multiple of `grid` (ties round up).
pub open spec fn spec_quantize_tick(tick: int, grid: int) -> int {
    ((tick + grid / 2) / grid) * grid
}

/// Clip freezer for capturing generator output
pub struct ClipFreezer {
    /// Current state
    state: FreezerState,
    /// Options
    options: FreezeOptions,
    /// Frozen notes
    notes: Vec<FrozenNote>,
    /// Active notes (note on received, waiting for note off)
    active_notes: Vec<ActiveNote>,
    /// Current position in ticks
    position: u64,
    /// PPQN
    ppqn: u32,
}

impl ClipFreezer {
    /// The state.
    pub closed spec fn spec_state(self) -> FreezerState {
        self.state
    }

    /// The options.
    pub closed spec fn spec_options(self) -> FreezeOptions {
        self.options
    }

    /// The frozen notes so far.
    pub closed spec fn spec_notes(self) -> Seq<FrozenNote> {
        self.notes@
    }

    /// How many notes are open (on seen, off pending).
    pub closed spec fn spec_open_notes(self) -> int {
        self.active_notes@.len() as int
    }

    /// The capture position in ticks.
    pub closed spec fn spec_position(self) -> int {
        self.position as int
    }

    /// Create a new clip freezer at the given resolution.
    pub fn new(ppqn: u32) -> (r: Self)
        ensures
            r.spec_state() == FreezerState::Idle,
            r.spec_notes().len() == 0,
            r.spec_open_notes() == 0,
            r.spec_position() == 0,
            r.spec_options() == FreezeOptions::spec_default(),
    {
        Self {
            state: FreezerState::Idle,
            options: FreezeOptions::default(),
            notes: Vec::new(),
            active_notes: Vec::new(),
            position: 0,
            ppqn,
        }
    }

    /// Get current state
    pub fn state(&self) -> (r: FreezerState)
        ensures
            r == self.spec_state(),
    {
        self.state
    }

    /// Check if freezing
    pub fn is_freezing(&self) -> (r: bool)
        ensures
            r == (self.spec_state() == FreezerState::Capturing),
    {
        self.state == FreezerState::Capturing
    }

    /// Check if complete
    pub fn is_complete(&self) -> (r: bool)
        ensures
            r == (self.spec_state() == FreezerState::Complete),
    {
        self.state == FreezerState::Complete
    }

    /// Set freeze options
    pub fn set_options(&mut self, options: FreezeOptions)
        ensures
            final(self).spec_options() == options,
            final(self).spec_state() == old(self).spec_state(),
            final(self).spec_notes() == old(self).spec_notes(),
    {
        self.options = options;
    }

    /// Get options
    pub fn options(&self) -> (r: &FreezeOptions)
        ensures
            *r == self.spec_options(),
    {
        &self.options
    }

    /// Start freezing with the given options: the buffers clear and the
    /// position rewinds.
    pub fn start(&mut self, options: FreezeOptions)
        ensures
            final(self).spec_state() == FreezerState::Capturing,
            final(self).spec_options() == options,
            final(self).spec_notes().len() == 0,
            final(self).spec_open_notes() == 0,
            final(self).spec_position() == 0,
    {
        self.options = options;
        self.notes.clear();
        self.active_notes.clear();
        self.position = 0;
        self.state = FreezerState::Capturing;
    }

    /// Stop freezing: every still-open note closes at the current
    /// position (kept only at or above the minimum length) and the
    /// capture completes.
    pub fn stop(&mut self)
        ensures
            final(self).spec_state() == FreezerState::Complete,
            final(self).spec_open_notes() == 0,
            final(self).spec_notes().len() >= old(self).spec_notes().len(),
            final(self).spec_notes().len()
                <= old(self).spec_notes().len() + old(self).spec_open_notes(),
            final(self).spec_options() == old(self).spec_options(),
            final(self).spec_position() == old(self).spec_position(),
    {
        // Close any active notes
        let n = self.active_notes.len();
        let mut i: usize = 0;
        while i < n
            invariant
                0 <= i <= n,
                n == self.active_notes@.len(),
                self.active_notes@ == old(self).active_notes@,
                self.options == old(self).spec_options(),
                self.position == old(self).spec_position(),
                self.state == old(self).spec_state(),
                old(self).spec_notes().len() <= self.notes@.len()
                    <= old(self).spec_notes().len() + i,
            decreases n - i,
        {
            let active = self.active_notes[i];
            let duration = if self.position >= active.start_tick {
                self.position - active.start_tick
            } else {
                0
            };
            if duration >= self.options.min_note_length as u64 {
                self.notes.push(FrozenNote {
                    channel: active.channel,
                    note: active.note,
                    velocity: if self.options.include_velocity { active.velocity } else { 100 },
                    start_tick: active.start_tick,
                    duration,
                });
            }
            i = i + 1;
        }
        self.active_notes.clear();
        self.state = FreezerState::Complete;
    }

    /// Cancel freezing: everything captured is dropped.
    pub fn cancel(&mut self)
        ensures
            final(self).spec_state() == FreezerState::Idle,
            final(self).spec_notes().len() == 0,
            final(self).spec_open_notes() == 0,
            final(self).spec_position() == old(self).spec_position(),
    {
        self.notes.clear();
        self.active_notes.clear();
        self.state = FreezerState::Idle;
    }

    /// Reset to the idle state with everything cleared.
    pub fn reset(&mut self)
        ensures
            final(self).spec_state() == FreezerState::Idle,
            final(self).spec_notes().len() == 0,
            final(self).spec_open_notes() == 0,
            final(self).spec_position() == 0,
    {
        self.notes.clear();
        self.active_notes.clear();
        self.position = 0;
        self.state = FreezerState::Idle;
    }

    /// Process generator events while capturing: an event with velocity
    /// opens an active note; one with velocity zero closes the first
    /// matching open note into a frozen note (quantized to the grid when
    /// one is set, dropped below the minimum length).
    pub fn process_events(&mut self, events: &Vec<MidiEvent>)
        ensures
            final(self).spec_state() == old(self).spec_state(),
            final(self).spec_options() == old(self).spec_options(),
            final(self).spec_position() == old(self).spec_position(),
            old(self).spec_state() != FreezerState::Capturing ==> *final(self) == *old(self),
            final(self).spec_notes().len()
                <= old(self).spec_notes().len() + events@.len(),
    {
        if self.state != FreezerState::Capturing {
            return;
        }

        let n = events.len();
        let mut i: usize = 0;
        while i < n
            invariant
                0 <= i <= n,
                n == events@.len(),
                self.state == old(self).spec_state(),
                self.options == old(self).spec_options(),
                self.position == old(self).spec_position(),
                self.notes@.len() <= old(self).spec_notes().len() + i,
            decreases n - i,
        {
            let event = events[i];
            if event.velocity > 0 {
                // Note on
                self.active_notes.push(ActiveNote {
                    channel: event.channel,
                    note: event.note,
                    velocity: event.velocity,
                    start_tick: event.start_tick,
                });
            } else {
                // Note off: close the first matching open note
                let m = self.active_notes.len();
                let mut j: usize = 0;
                let mut found: Option<usize> = None;
                while j < m && found.is_none()
                    invariant
                        0 <= j <= m,
                        m == self.active_notes@.len(),
                        match found {
                            Some(k) => k < m,
                            None => true,
                        },
                    decreases (if found is None { 1int } else { 0int }), m - j,
                {
                    if self.active_notes[j].channel == event.channel
                        && self.active_notes[j].note == event.note {
                        found = Some(j);
                    } else {
                        j = j + 1;
                    }
                }
                match found {
                    Some(idx) => {
                        let active = self.active_notes.remove(idx);
                        let duration = if event.start_tick >= active.start_tick {
                            event.start_tick - active.start_tick
                        } else {
                            0
                        };
                        if duration >= self.options.min_note_length as u64 {
                            let velocity = if self.options.include_velocity {
                                active.velocity
                            } else {
                                100
                            };
                            let (start, dur) = match self.options.quantize_grid {
                                Some(grid) => {
                                    if grid > 0 {
                                        let qs = quantize_tick(active.start_tick, grid);
                                        let end_raw = if active.start_tick
                                            <= u64::MAX - duration {
                                            active.start_tick + duration
                                        } else {
                                            u64::MAX
                                        };
                                        let qe = quantize_tick(end_raw, grid);
                                        let qd = if qe >= qs { qe - qs } else { 0 };
                                        (qs, qd)
                                    } else {
                                        (active.start_tick, duration)
                                    }
                                },
                                None => (active.start_tick, duration),
                            };
                            self.notes.push(FrozenNote {
                                channel: active.channel,
                                note: active.note,
                                velocity,
                                start_tick: start,
                                duration: dur,
                            });
                        }
                    },
                    None => {},
                }
            }
            i = i + 1;
        }
    }

    /// Advance the capture position; the capture completes once the
    /// configured length is reached.
    pub fn tick(&mut self, ticks: u64)
        requires
            old(self).spec_options().spec_total_ticks() <= u64::MAX,
        ensures
            old(self).spec_state() != FreezerState::Capturing ==> *final(self) == *old(self),
            old(self).spec_state() == FreezerState::Capturing ==> {
                &&& final(self).spec_position() == crate::spec_sat_add(
                    old(self).spec_position(), ticks as int)
                &&& {
                    let target = old(self).spec_options().spec_total_ticks();
                    if target > 0 && final(self).spec_position() >= target {
                        final(self).spec_state() == FreezerState::Complete
                    } else {
                        final(self).spec_state() == FreezerState::Capturing
                    }
                }
            },
            final(self).spec_options() == old(self).spec_options(),
    {
        if self.state != FreezerState::Capturing {
            return;
        }

        self.position = if self.position <= u64::MAX - ticks {
            self.position + ticks
        } else {
            u64::MAX
        };

        // Complete once the target length is reached
        let target = self.options.total_ticks();
        if target > 0 && self.position >= target {
            self.stop();
        }
    }

    /// Get current position
    pub fn position(&self) -> (r: u64)
        ensures
            r == self.spec_position(),
    {
        self.position
    }

    /// Get frozen notes
    pub fn notes(&self) -> (r: &[FrozenNote])
        ensures
            r@ == self.spec_notes(),
    {
        self.notes.as_slice()
    }

    /// Append one frozen note; used when a note list is assembled by
    /// hand rather than captured.
    pub fn add_note(&mut self, note: FrozenNote)
        ensures
            final(self).spec_notes() == old(self).spec_notes().push(note),
            final(self).spec_state() == old(self).spec_state(),
            final(self).spec_options() == old(self).spec_options(),
    {
        self.notes.push(note);
    }

    /// Take the frozen notes, leaving the freezer idle and empty.
    pub fn take_notes(&mut self) -> (r: Vec<FrozenNote>)
        ensures
            r@ == old(self).spec_notes(),
            final(self).spec_notes().len() == 0,
            final(self).spec_state() == FreezerState::Idle,
    {
        let mut taken: Vec<FrozenNote> = Vec::new();
        std::mem::swap(&mut taken, &mut self.notes);
        self.state = FreezerState::Idle;
        taken
    }

    /// Get number of frozen notes
    pub fn note_count(&self) -> (r: usize)
        ensures
            r == self.spec_notes().len(),
    {
        self.notes.len()
    }

    /// Sort the frozen notes by start tick.
    pub fn sort_notes(&mut self)
        ensures
            final(self).spec_notes().to_multiset() == old(self).spec_notes().to_multiset(),
            final(self).spec_notes().len() == old(self).spec_notes().len(),
            forall|a: int, b: int| 0 <= a < b < final(self).spec_notes().len()
                ==> #[trigger] final(self).spec_notes()[a].start_tick
                    <= #[trigger] final(self).spec_notes()[b].start_tick,
            final(self).spec_state() == old(self).spec_state(),
            final(self).spec_options() == old(self).spec_options(),
    {
        let n = self.notes.len();
        let mut sorted: Vec<FrozenNote> = Vec::new();
        let mut i: usize = 0;
        proof {
            broadcast use vstd::seq_lib::group_to_multiset_ensures;
            assert(self.notes@.take(0) =~= Seq::<FrozenNote>::empty());
            assert(sorted@.to_multiset() =~= self.notes@.take(0).to_multiset());
        }
        while i < n
            invariant
                0 <= i <= n,
                n == self.notes@.len(),
                self.notes@ == old(self).spec_notes(),
                sorted@.len() == i,
                sorted@.to_multiset() == self.notes@.take(i as int).to_multiset(),
                forall|a: int, b: int| 0 <= a < b < sorted@.len()
                    ==> #[trigger] sorted@[a].start_tick <= #[trigger] sorted@[b].start_tick,
            decreases n - i,
        {
            let x = self.notes[i];
            let mut pos: usize = 0;
            while pos < sorted.len() && sorted[pos].start_tick <= x.start_tick
                invariant
                    0 <= pos <= sorted@.len(),
                    forall|a: int| 0 <= a < pos
                        ==> #[trigger] sorted@[a].start_tick <= x.start_tick,
                decreases sorted@.len() - pos,
            {
                pos = pos + 1;
            }
            let ghost before = sorted@;
            sorted.insert(pos, x);
            proof {
                broadcast use vstd::seq_lib::group_to_multiset_ensures;
                assert forall|a: int, b: int| 0 <= a < b < sorted@.len()
                    implies #[trigger] sorted@[a].start_tick
                        <= #[trigger] sorted@[b].start_tick by {
                    if b < pos {
                        assert(sorted@[a] == before[a] && sorted@[b] == before[b]);
                    } else if a > pos {
                        assert(sorted@[a] == before[a - 1] && sorted@[b] == before[b - 1]);
                    } else if a < pos && b == pos {
                        assert(sorted@[a] == before[a]);
                    } else if a == pos {
                        assert(sorted@[b] == before[b - 1]);
                        assert(x.start_tick < before[pos as int].start_tick
                            || pos == before.len());
                    } else {
                        assert(sorted@[a] == before[a] && sorted@[b] == before[b - 1]);
                    }
                }
                lemma_frozen_insert_to_multiset(before, pos as int, x);
                assert(self.notes@.take(i as int + 1)
                    =~= self.notes@.take(i as int).push(self.notes@[i as int]));
            }
            i = i + 1;
        }
        proof {
            assert(self.notes@.take(n as int) =~= self.notes@);
        }
        self.notes = sorted;
    }

    /// Merge overlapping same-pitch notes: when the option is on, any
    /// note starting at or before an earlier note's end on the same
    /// channel and pitch folds into it, extending it to the later end.
    pub fn merge_overlapping(&mut self)
        requires
            forall|i: int| 0 <= i < old(self).spec_notes().len()
                ==> (#[trigger] old(self).spec_notes()[i]).start_tick
                    + old(self).spec_notes()[i].duration <= u64::MAX,
        ensures
            final(self).spec_state() == old(self).spec_state(),
            final(self).spec_options() == old(self).spec_options(),
            !old(self).spec_options().merge_notes ==> *final(self) == *old(self),
            final(self).spec_notes().len() <= old(self).spec_notes().len(),
    {
        if !self.options.merge_notes {
            return;
        }

        self.sort_notes();

        let mut i: usize = 0;
        while i < self.notes.len()
            invariant
                self.notes@.len() <= old(self).spec_notes().len(),
                self.state == old(self).spec_state(),
                self.options == old(self).spec_options(),
            decreases self.notes@.len() - i,
        {
            let ghost len0 = self.notes@.len();
            let mut j: usize = i + 1;
            while j < self.notes.len()
                invariant
                    i + 1 <= j,
                    j <= self.notes@.len() || j == i + 1,
                    i < self.notes@.len(),
                    self.notes@.len() <= len0,
                    self.notes@.len() <= old(self).spec_notes().len(),
                    self.state == old(self).spec_state(),
                    self.options == old(self).spec_options(),
                decreases self.notes@.len() - j,
            {
                let a = self.notes[i];
                let b = self.notes[j];
                let a_end = if a.start_tick <= u64::MAX - a.duration {
                    a.start_tick + a.duration
                } else {
                    u64::MAX
                };
                if a.channel == b.channel && a.note == b.note && b.start_tick <= a_end {
                    // Merge: extend the earlier note to cover the later one
                    let b_end = if b.start_tick <= u64::MAX - b.duration {
                        b.start_tick + b.duration
                    } else {
                        u64::MAX
                    };
                    let new_end = if a_end >= b_end { a_end } else { b_end };
                    let merged = FrozenNote {
                        duration: if new_end >= a.start_tick {
                            new_end - a.start_tick
                        } else {
                            0
                        },
                        ..a
                    };
                    self.notes.set(i, merged);
                    self.notes.remove(j);
                } else {
                    j = j + 1;
                }
            }
            i = i + 1;
        }
    }
}

/// Snap a tick to the nearest multiple of the grid.
fn quantize_tick(tick: u64, grid: u32) -> (r: u64)
    requires
        grid >= 1,
    ensures
        r == spec_quantize_tick(tick as int, grid as int)
            || (tick + grid / 2 > u64::MAX && r == (u64::MAX as int) / (grid as int) * (grid as int)),
{
    let g = grid as u64;
    let bumped = if tick <= u64::MAX - g / 2 { tick + g / 2 } else { u64::MAX };
    proof {
        vstd::arithmetic::div_mod::lemma_div_nonincreasing(bumped as int, g as int);
        vstd::arithmetic::mul::lemma_mul_nonnegative(bumped as int / g as int, g as int);
        vstd::arithmetic::div_mod::lemma_fundamental_div_mod(bumped as int, g as int);
        vstd::arithmetic::mul::lemma_mul_is_commutative(bumped as int / g as int, g as int);
        assert(0 <= bumped as int % g as int);
    }
    (bumped / g) * g
}

/// Inserting anywhere in a note sequence adds one copy to its multiset.
proof fn lemma_frozen_insert_to_multiset(s: Seq<FrozenNote>, i: int, a: FrozenNote)
    requires
        0 <= i <= s.len(),
    ensures
        s.insert(i, a).to_multiset() == s.to_multiset().insert(a),
{
    broadcast use vstd::seq_lib::group_to_multiset_ensures;

    let t = s.insert(i, a);
    assert(t[i] == a);
    assert(t.remove(i) =~= s);
    assert(t.remove(i).to_multiset() =~= t.to_multiset().remove(a));
    assert(t.to_multiset().contains(a)) by {
        assert(t.contains(a));
    }
    assert(t.to_multiset() =~= s.to_multiset().insert(a));
}

} // verus!
