//! Arpeggiator generator for rhythmic note patterns.
//!
//! Generates arpeggiated patterns from scale notes with various
//! patterns, octave ranges, and rhythmic options including Euclidean
//! rhythms. Every emitted note is a scale tone of the key it was built
//! for; the note sequence is rebuilt whenever the context's key changes.

use vstd::prelude::*;

use crate::generators::{GeneratorContext, MidiEvent, events_in_scale};
use crate::generators::euclid;
use crate::music::scale::Scale;

verus! {

/// Arpeggio pattern types
#[derive(Debug, Clone, Copy, PartialEq, Eq, Structural)]
pub enum ArpPattern {
    /// Play notes ascending
    Up,
    /// Play notes descending
    Down,
    /// Play up then down
    UpDown,
    /// Play down then up
    DownUp,
    /// Random note selection
    Random,
    /// Play in order notes were defined
    Order,
}

impl ArpPattern {
    /// The pattern a small parameter value selects.
    pub open spec fn spec_from_value(v: int) -> ArpPattern {
        if v == 0 { ArpPattern::Up }
        else if v == 1 { ArpPattern::Down }
        else if v == 2 { ArpPattern::UpDown }
        else if v == 3 { ArpPattern::DownUp }
        else if v == 4 { ArpPattern::Random }
        else { ArpPattern::Order }
    }

    /// Decode a pattern from its parameter value.
    pub fn from_value(v: u8) -> (r: Self)
        ensures
            r == ArpPattern::spec_from_value(v as int),
    {
        match v {
            0 => ArpPattern::Up,
            1 => ArpPattern::Down,
            2 => ArpPattern::UpDown,
            3 => ArpPattern::DownUp,
            4 => ArpPattern::Random,
            _ => ArpPattern::Order,
        }
    }

    /// Encode a pattern as its parameter value.
    pub fn to_value(self) -> (r: u8)
        ensures
            ArpPattern::spec_from_value(r as int) == self,
            r <= 5,
    {
        match self {
            ArpPattern::Up => 0,
            ArpPattern::Down => 1,
            ArpPattern::UpDown => 2,
            ArpPattern::DownUp => 3,
            ArpPattern::Random => 4,
            ArpPattern::Order => 5,
        }
    }
}

/// Configuration for the arpeggiator. Probabilities and the sounding-length
/// fraction are in thousandths.
#[derive(Debug, Clone, PartialEq)]
pub struct ArpConfig {
    /// Pattern type
    pub pattern: ArpPattern,
    /// Note rate as division (4 = quarter, 8 = eighth, 16 = sixteenth)
    pub rate: u32,
    /// Gate portion of the note length, in thousandths (100..=1000)
    pub gate_permille: u16,
    /// Number of octaves to span (1..=4)
    pub octaves: u8,
    /// Base octave (MIDI octave, 0..=8)
    pub base_octave: i8,
    /// Base velocity (1..=127)
    pub velocity: u8,
    /// Velocity accent on bar boundaries (1..=127)
    pub accent_velocity: u8,
    /// Probability of playing each step, in thousandths (0..=1000)
    pub probability_permille: u16,
    /// Use Euclidean rhythm
    pub euclidean: bool,
    /// Euclidean pattern: number of hits (1..=32)
    pub euclidean_hits: u8,
    /// Euclidean pattern: number of steps (1..=32)
    pub euclidean_steps: u8,
    /// Scale degrees to include (empty = all)
    pub degrees: Vec<usize>,
}

impl ArpConfig {
    /// All numeric fields inside their documented ranges.
    pub open spec fn wf(self) -> bool {
        &&& 1 <= self.rate <= 64
        &&& 100 <= self.gate_permille <= 1000
        &&& 1 <= self.octaves <= 4
        &&& 0 <= self.base_octave <= 8
        &&& 1 <= self.velocity <= 127
        &&& 1 <= self.accent_velocity <= 127
        &&& self.probability_permille <= 1000
        &&& 1 <= self.euclidean_hits <= 32
        &&& 1 <= self.euclidean_steps <= 32
    }

    /// The configuration with every field forced into its range.
    pub open spec fn spec_clamped(self) -> ArpConfig {
        ArpConfig {
            pattern: self.pattern,
            rate: crate::spec_clamp(self.rate as int, 1, 64) as u32,
            gate_permille: crate::spec_clamp(self.gate_permille as int, 100, 1000) as u16,
            octaves: crate::spec_clamp(self.octaves as int, 1, 4) as u8,
            base_octave: crate::spec_clamp(self.base_octave as int, 0, 8) as i8,
            velocity: crate::spec_clamp(self.velocity as int, 1, 127) as u8,
            accent_velocity: crate::spec_clamp(self.accent_velocity as int, 1, 127) as u8,
            probability_permille: crate::spec_clamp(
                self.probability_permille as int, 0, 1000) as u16,
            euclidean: self.euclidean,
            euclidean_hits: crate::spec_clamp(self.euclidean_hits as int, 1, 32) as u8,
            euclidean_steps: crate::spec_clamp(self.euclidean_steps as int, 1, 32) as u8,
            degrees: self.degrees,
        }
    }

    /// The configuration with every field forced into its range.
    pub fn clamped(self) -> (r: Self)
        ensures
            r == self.spec_clamped(),
            r.wf(),
    {
        ArpConfig {
            pattern: self.pattern,
            rate: crate::clamp_u32(self.rate, 1, 64),
            gate_permille: crate::clamp_u16(self.gate_permille, 100, 1000),
            octaves: crate::clamp_u8(self.octaves, 1, 4),
            base_octave: crate::clamp_i8(self.base_octave, 0, 8),
            velocity: crate::clamp_u8(self.velocity, 1, 127),
            accent_velocity: crate::clamp_u8(self.accent_velocity, 1, 127),
            probability_permille: crate::clamp_u16(self.probability_permille, 0, 1000),
            euclidean: self.euclidean,
            euclidean_hits: crate::clamp_u8(self.euclidean_hits, 1, 32),
            euclidean_steps: crate::clamp_u8(self.euclidean_steps, 1, 32),
            degrees: self.degrees,
        }
    }
}

impl Default for ArpConfig {
    /// Ascending eighth notes over two octaves from octave four, at full
    /// probability without Euclidean gating.
    fn default() -> (r: Self)
        ensures
            r.is_default(),
            r.wf(),
    {
        Self {
            pattern: ArpPattern::Up,
            rate: 8,  // Eighth notes
            gate_permille: 800,
            octaves: 2,
            base_octave: 4,
            velocity: 100,
            accent_velocity: 120,
            probability_permille: 1000,
            euclidean: false,
            euclidean_hits: 5,
            euclidean_steps: 8,
            degrees: Vec::new(),  // All degrees
        }
    }
}

impl ArpConfig {
    /// The default configuration: ascending eighth notes over two octaves
    /// from octave four, at full probability without Euclidean gating.
    pub open spec fn is_default(self) -> bool {
        &&& self.pattern == ArpPattern::Up
        &&& self.rate == 8
        &&& self.gate_permille == 800
        &&& self.octaves == 2
        &&& self.base_octave == 4
        &&& self.velocity == 100
        &&& self.accent_velocity == 120
        &&& self.probability_permille == 1000
        &&& !self.euclidean
        &&& self.euclidean_hits == 5
        &&& self.euclidean_steps == 8
        &&& self.degrees@.len() == 0
    }
}

/// Whether pitch class `pc` occurs among `root_pc` shifted by `ivals`.
pub open spec fn pc_in_ivals(pc: int, root_pc: int, ivals: Seq<u8>) -> bool {
    exists|i: int| 0 <= i < ivals.len() && (root_pc + ivals[i]) % 12 == pc
}

/// Arpeggiator generator
pub struct ArpeggioGenerator {
    config: ArpConfig,
    /// Current position in the arpeggio sequence
    position: usize,
    /// Direction for up-down patterns (true = going up)
    direction_up: bool,
    /// Euclidean pattern cache
    euclidean_pattern: Vec<bool>,
    /// Current step in euclidean pattern
    euclidean_step: usize,
    /// Notes in current arpeggio
    note_sequence: Vec<u8>,
    /// Root pitch class of the scale the sequence was built for
    seq_root_pc: u8,
    /// Intervals of the scale the sequence was built for
    seq_ivals: Vec<u8>,
    /// Accumulated ticks for timing
    tick_accumulator: u64,
    rng: rand::rngs::StdRng,
}

impl ArpeggioGenerator {
    /// The configuration.
    pub closed spec fn spec_config(self) -> ArpConfig {
        self.config
    }

    /// The cached note sequence.
    pub closed spec fn spec_sequence(self) -> Seq<u8> {
        self.note_sequence@
    }

    /// The running tick count.
    pub closed spec fn spec_tick_accumulator(self) -> int {
        self.tick_accumulator as int
    }

    /// The mutable playing state apart from the random source: position,
    /// direction, Euclidean step, accumulated ticks, cached sequence and
    /// cached Euclidean pattern.
    pub closed spec fn spec_state(self) -> (int, bool, int, int, Seq<u8>, Seq<bool>) {
        (
            self.position as int,
            self.direction_up,
            self.euclidean_step as int,
            self.tick_accumulator as int,
            self.note_sequence@,
            self.euclidean_pattern@,
        )
    }

    /// The state a freshly created generator starts in.
    pub open spec fn spec_fresh_state() -> (int, bool, int, int, Seq<u8>, Seq<bool>) {
        (0, true, 0, 0, Seq::empty(), Seq::empty())
    }

    /// Configuration in range, the playing position inside the cached
    /// sequence, and every cached note a scale tone of the scale the
    /// sequence was built for.
    pub open spec fn wf(self) -> bool {
        &&& self.spec_config().wf()
        &&& self.spec_sequence().len() > 0 ==> (self.spec_state().0 < self.spec_sequence().len())
        &&& self.spec_sequence().len() == 0 ==> self.spec_state().0 == 0
        &&& forall|i: int| 0 <= i < self.spec_sequence().len()
            ==> pc_in_ivals(#[trigger] self.spec_sequence()[i] as int % 12,
                self.spec_seq_root_pc(), self.spec_seq_ivals())
    }

    /// Root pitch class the cached sequence was built for.
    pub closed spec fn spec_seq_root_pc(self) -> int {
        self.seq_root_pc as int
    }

    /// Scale intervals the cached sequence was built for.
    pub closed spec fn spec_seq_ivals(self) -> Seq<u8> {
        self.seq_ivals@
    }

    /// Create a new arpeggiator
    pub fn new() -> (r: Self)
        ensures
            r.wf(),
            r.spec_config().is_default(),
            r.spec_state() == ArpeggioGenerator::spec_fresh_state(),
    {
        Self {
            config: ArpConfig::default(),
            position: 0,
            direction_up: true,
            euclidean_pattern: Vec::new(),
            euclidean_step: 0,
            note_sequence: Vec::new(),
            seq_root_pc: 0,
            seq_ivals: Vec::new(),
            tick_accumulator: 0,
            rng: crate::rng::fresh_rng(),
        }
    }

    /// The generator's name.
    pub fn name(&self) -> (r: &'static str)
        ensures
            r@ == "arpeggio"@,
    {
        "arpeggio"
    }

    /// The current configuration.
    pub fn config(&self) -> (r: &ArpConfig)
        ensures
            *r == self.spec_config(),
    {
        &self.config
    }

    /// Replace the configuration; every field is forced into its range,
    /// the cached sequence is dropped so the next window rebuilds it, and
    /// the Euclidean pattern is recomputed.
    pub fn set_config(&mut self, config: ArpConfig)
        requires
            old(self).wf(),
        ensures
            final(self).wf(),
            final(self).spec_config() == config.spec_clamped(),
            final(self).spec_sequence().len() == 0,
    {
        self.config = config.clamped();
        self.note_sequence = Vec::new();
        self.position = 0;
        self.euclidean_pattern = euclid::euclidean(
            self.config.euclidean_hits as usize,
            self.config.euclidean_steps as usize,
        );
        if self.euclidean_step >= self.euclidean_pattern.len() {
            self.euclidean_step = 0;
        }
    }

    /// Reset the generator state: the next window rebuilds the sequence.
    /// The configuration is kept, and the playing state returns to that of
    /// a freshly created generator.
    pub fn reset(&mut self)
        requires
            old(self).wf(),
        ensures
            final(self).wf(),
            final(self).spec_config() == old(self).spec_config(),
            final(self).spec_state() == ArpeggioGenerator::spec_fresh_state(),
    {
        self.position = 0;
        self.direction_up = true;
        self.euclidean_step = 0;
        self.tick_accumulator = 0;
        self.note_sequence = Vec::new();
        self.euclidean_pattern = Vec::new();
    }

    /// Build the note sequence from the context's scale: the configured
    /// degrees (all of them when none are chosen) across the configured
    /// octaves, sorted ascending for Up/UpDown and descending for
    /// Down/DownUp.
    fn build_sequence(&mut self, context: &GeneratorContext)
        requires
            old(self).wf(),
        ensures
            final(self).wf(),
            final(self).spec_config() == old(self).spec_config(),
            final(self).spec_seq_root_pc()
                == context.key.spec_scale().spec_root().pc(),
            final(self).spec_seq_ivals() == context.key.spec_scale().ivals(),
            final(self).spec_tick_accumulator() == old(self).spec_tick_accumulator(),
            // The sequence holds exactly the in-range notes of the chosen
            // degrees across the octave span, ordered by the pattern.
            ({
                let cfg = old(self).spec_config();
                let scale = context.key.spec_scale();
                let use_all = cfg.degrees@.len() == 0;
                let count = if use_all { scale.spec_len() as int }
                    else { cfg.degrees@.len() as int };
                let raw = spec_arp_raw(scale, cfg.degrees@, use_all, count,
                    cfg.base_octave as int, cfg.octaves as int, 0);
                let sq = final(self).spec_sequence();
                match cfg.pattern {
                    ArpPattern::Up | ArpPattern::UpDown => {
                        &&& sq.to_multiset() == raw.to_multiset()
                        &&& forall|i: int, j: int| 0 <= i < j < sq.len()
                            ==> #[trigger] sq[i] <= #[trigger] sq[j]
                    },
                    ArpPattern::Down | ArpPattern::DownUp => {
                        &&& sq.to_multiset() == raw.to_multiset()
                        &&& forall|i: int, j: int| 0 <= i < j < sq.len()
                            ==> #[trigger] sq[i] >= #[trigger] sq[j]
                    },
                    ArpPattern::Random | ArpPattern::Order => sq == raw,
                }
            }),
    {
        let scale: &Scale = context.key.scale();
        let scale_len = scale.len();

        let mut notes: Vec<u8> = Vec::new();

        let use_all = self.config.degrees.len() == 0;
        let count = if use_all { scale_len } else { self.config.degrees.len() };
        let ghost degs = self.config.degrees@;
        let ghost octs = self.config.octaves as int;
        let ghost base = self.config.base_octave as int;
        let ghost full = spec_arp_raw(*scale, degs, use_all, count as int, base, octs, 0);

        // Build notes across octaves
        let mut octave_offset: u8 = 0;
        while octave_offset < self.config.octaves
            invariant
                0 <= octave_offset <= self.config.octaves,
                self.config.octaves <= 4,
                self.config.base_octave <= 8,
                use_all ==> count == scale.spec_len(),
                !use_all ==> count == self.config.degrees@.len(),
                degs == self.config.degrees@,
                octs == self.config.octaves as int,
                base == self.config.base_octave as int,
                full == spec_arp_raw(*scale, degs, use_all, count as int, base, octs, 0),
                full == notes@ + spec_arp_raw(*scale, degs, use_all, count as int,
                    base, octs, octave_offset as int),
                forall|i: int| 0 <= i < notes@.len()
                    ==> scale.has_pc(#[trigger] notes@[i] as int % 12),
            decreases self.config.octaves - octave_offset,
        {
            let octave = self.config.base_octave + octave_offset as i8;
            let ghost row_start = notes@;
            let mut d: usize = 0;
            while d < count
                invariant
                    0 <= d <= count,
                    use_all ==> count == scale.spec_len(),
                    !use_all ==> count == self.config.degrees@.len(),
                    degs == self.config.degrees@,
                    octave as int == base + octave_offset as int,
                    spec_arp_degree_row(*scale, degs, use_all, count as int,
                        octave as int, 0)
                        == notes@.skip(row_start.len() as int)
                            + spec_arp_degree_row(*scale, degs, use_all,
                                count as int, octave as int, d as int),
                    notes@.len() >= row_start.len(),
                    notes@.take(row_start.len() as int) == row_start,
                    forall|i: int| 0 <= i < notes@.len()
                        ==> scale.has_pc(#[trigger] notes@[i] as int % 12),
                decreases count - d,
            {
                let degree = if use_all { d + 1 } else { self.config.degrees[d] };
                let ghost pre = notes@;
                match scale.midi_note_at(degree, octave) {
                    Some(note) => {
                        notes.push(note);
                    },
                    None => {},
                }
                proof {
                    assert(notes@.take(row_start.len() as int) =~= row_start);
                    let rowd = spec_arp_degree_row(*scale, degs, use_all,
                        count as int, octave as int, d as int);
                    let rowd1 = spec_arp_degree_row(*scale, degs, use_all,
                        count as int, octave as int, d as int + 1);
                    let degq = if use_all { d as int + 1 } else { degs[d as int] as int };
                    let mq = scale.spec_midi_at(degq, octave as int);
                    if 1 <= degq <= scale.spec_len() && 0 <= mq <= 127 {
                        assert(rowd == seq![mq as u8] + rowd1);
                        assert(notes@.len() == pre.len() + 1);
                        assert(notes@.last() == mq as u8);
                        assert(notes@.skip(row_start.len() as int)
                            =~= pre.skip(row_start.len() as int)
                                .push(notes@.last()));
                        assert(pre.skip(row_start.len() as int)
                            + (seq![mq as u8] + rowd1)
                            =~= notes@.skip(row_start.len() as int) + rowd1);
                    } else {
                        assert(rowd == rowd1);
                        assert(notes@ == pre);
                    }
                }
                d = d + 1;
            }
            proof {
                assert(notes@ =~= row_start + notes@.skip(row_start.len() as int));
                assert((row_start + notes@.skip(row_start.len() as int))
                    + spec_arp_raw(*scale, degs, use_all, count as int, base, octs,
                        octave_offset as int + 1)
                    =~= row_start + (notes@.skip(row_start.len() as int)
                        + spec_arp_raw(*scale, degs, use_all, count as int, base,
                            octs, octave_offset as int + 1)));
            }
            octave_offset = octave_offset + 1;
        }
        proof {
            assert(full == notes@);
        }

        // Sort for the directional patterns
        let ghost mut sorted_snapshot: Seq<u8> = notes@;
        match self.config.pattern {
            ArpPattern::Up | ArpPattern::UpDown => {
                notes = sort_notes_ascending(notes, Ghost(*scale));
            },
            ArpPattern::Down | ArpPattern::DownUp => {
                notes = sort_notes_ascending(notes, Ghost(*scale));
                proof {
                    sorted_snapshot = notes@;
                }
                notes = reverse_notes(notes, Ghost(*scale));
            },
            _ => {},
        }

        self.note_sequence = notes;
        self.position = 0;
        self.direction_up = true;
        self.seq_root_pc = scale.root().pitch_class();
        let ivs = scale.intervals();
        let mut ivals_copy: Vec<u8> = Vec::new();
        let mut k: usize = 0;
        while k < ivs.len()
            invariant
                0 <= k <= ivs@.len(),
                ivals_copy@ == ivs@.take(k as int),
            decreases ivs@.len() - k,
        {
            ivals_copy.push(ivs[k]);
            proof {
                assert(ivals_copy@ =~= ivs@.take(k as int + 1));
            }
            k = k + 1;
        }
        proof {
            assert(ivs@.take(ivs@.len() as int) =~= ivs@);
        }
        self.seq_ivals = ivals_copy;

        // Refresh the euclidean pattern if enabled
        if self.config.euclidean {
            self.euclidean_pattern = euclid::euclidean(
                self.config.euclidean_hits as usize,
                self.config.euclidean_steps as usize,
            );
            if self.euclidean_step >= self.euclidean_pattern.len() {
                self.euclidean_step = 0;
            }
        }
        proof {
            assert forall|i: int| 0 <= i < self.note_sequence@.len()
                implies pc_in_ivals(#[trigger] self.note_sequence@[i] as int % 12,
                    self.spec_seq_root_pc(), self.spec_seq_ivals()) by {
                assert(scale.has_pc(self.note_sequence@[i] as int % 12));
                let w = choose|w: int| 0 <= w < scale.spec_len()
                    && scale.pc_at(w) == self.note_sequence@[i] as int % 12;
                assert((self.spec_seq_root_pc() + self.spec_seq_ivals()[w]) % 12
                    == self.note_sequence@[i] as int % 12);
            }
            match self.spec_config().pattern {
                ArpPattern::Down | ArpPattern::DownUp => {
                    sorted_snapshot.lemma_reverse_to_multiset();
                    assert(self.note_sequence@.to_multiset() == full.to_multiset());
                },
                _ => {},
            }
        }
    }

    /// Whether the cached sequence was built for the context's scale.
    fn sequence_matches(&self, context: &GeneratorContext) -> (r: bool)
        ensures
            r == (self.spec_seq_root_pc() == context.key.spec_scale().spec_root().pc()
                && self.spec_seq_ivals() == context.key.spec_scale().ivals()),
    {
        let scale = context.key.scale();
        if self.seq_root_pc != scale.root().pitch_class() {
            return false;
        }
        let ivals = scale.intervals();
        if self.seq_ivals.len() != ivals.len() {
            return false;
        }
        let n = ivals.len();
        let mut i: usize = 0;
        while i < n
            invariant
                0 <= i <= n,
                n == self.seq_ivals@.len(),
                n == context.key.spec_scale().ivals().len(),
                ivals@ == context.key.spec_scale().ivals(),
                forall|j: int| 0 <= j < i
                    ==> self.seq_ivals@[j] == context.key.spec_scale().ivals()[j],
            decreases n - i,
        {
            if self.seq_ivals[i] != ivals[i] {
                return false;
            }
            i = i + 1;
        }
        proof {
            assert(self.seq_ivals@ =~= context.key.spec_scale().ivals());
        }
        true
    }

    /// Get the next note in the sequence, advancing the pattern position.
    /// The note always comes from the cached sequence.
    fn next_note(&mut self) -> (r: Option<u8>)
        requires
            old(self).wf(),
        ensures
            final(self).wf(),
            final(self).spec_config() == old(self).spec_config(),
            final(self).spec_sequence() == old(self).spec_sequence(),
            final(self).spec_seq_root_pc() == old(self).spec_seq_root_pc(),
            final(self).spec_seq_ivals() == old(self).spec_seq_ivals(),
            final(self).spec_tick_accumulator() == old(self).spec_tick_accumulator(),
            match r {
                Some(note) => old(self).spec_sequence().contains(note),
                None => old(self).spec_sequence().len() == 0,
            },
    {
        let len = self.note_sequence.len();
        if len == 0 {
            return None;
        }

        let note = match self.config.pattern {
            ArpPattern::Random => {
                let idx = crate::rng::rand_below(&mut self.rng, len as u64) as usize;
                self.note_sequence[idx]
            },
            ArpPattern::UpDown => {
                let note = self.note_sequence[self.position];
                if self.direction_up {
                    if self.position + 1 >= len {
                        self.position = if len >= 2 { len - 2 } else { 0 };
                        self.direction_up = false;
                    } else {
                        self.position = self.position + 1;
                    }
                } else {
                    if self.position == 0 {
                        self.direction_up = true;
                        self.position = if len > 1 { 1 } else { 0 };
                    } else {
                        self.position = self.position - 1;
                    }
                }
                note
            },
            ArpPattern::DownUp => {
                let note = self.note_sequence[self.position];
                if !self.direction_up {
                    if self.position == 0 {
                        self.direction_up = true;
                        self.position = if len > 1 { 1 } else { 0 };
                    } else {
                        self.position = self.position - 1;
                    }
                } else {
                    if self.position + 1 >= len {
                        self.position = if len >= 2 { len - 2 } else { 0 };
                        self.direction_up = false;
                    } else {
                        self.position = self.position + 1;
                    }
                }
                note
            },
            _ => {
                let note = self.note_sequence[self.position];
                self.position = (self.position + 1) % len;
                note
            },
        };

        Some(note)
    }

    /// Whether the current Euclidean step gates the note in, advancing the
    /// step; always true when Euclidean mode is off.
    fn should_play_euclidean(&mut self) -> (r: bool)
        requires
            old(self).wf(),
        ensures
            final(self).wf(),
            final(self).spec_config() == old(self).spec_config(),
            final(self).spec_sequence() == old(self).spec_sequence(),
            final(self).spec_seq_root_pc() == old(self).spec_seq_root_pc(),
            final(self).spec_seq_ivals() == old(self).spec_seq_ivals(),
            final(self).spec_tick_accumulator() == old(self).spec_tick_accumulator(),
            final(self).spec_state().0 == old(self).spec_state().0,
            !old(self).spec_config().euclidean ==> r,
    {
        if !self.config.euclidean || self.euclidean_pattern.len() == 0 {
            return true;
        }
        let idx = if self.euclidean_step < self.euclidean_pattern.len() {
            self.euclidean_step
        } else {
            0
        };
        let should_play = self.euclidean_pattern[idx];
        self.euclidean_step = (idx + 1) % self.euclidean_pattern.len();
        should_play
    }

    /// Generate events for one window: on every boundary of the configured
    /// rate, with the configured probability and Euclidean gating, one
    /// step of the pattern. Every emitted note is a scale tone of the
    /// context's key, the accent velocity falls on bar boundaries and the
    /// base velocity elsewhere, and every event starts inside the window.
    pub fn generate(&mut self, context: &GeneratorContext) -> (r: Vec<MidiEvent>)
        requires
            old(self).wf(),
            context.wf(),
        ensures
            final(self).wf(),
            final(self).spec_config() == old(self).spec_config(),
            events_in_scale(r@, context.key),
            forall|i: int| 0 <= i < r@.len()
                ==> (#[trigger] r@[i]).velocity == old(self).spec_config().velocity
                    || r@[i].velocity == old(self).spec_config().accent_velocity,
            forall|i: int| 0 <= i < r@.len()
                ==> (#[trigger] r@[i]).start_tick < context.ticks_to_generate,
            // With full probability, no euclidean filter and a nonempty
            // sequence, one note starts at every rate boundary in the
            // window and nowhere else.
            ({
                let cfg = old(self).spec_config();
                &&& cfg.probability_permille == 1000
                &&& !cfg.euclidean
                &&& final(self).spec_sequence().len() > 0
                &&& old(self).spec_tick_accumulator() + context.ticks_to_generate
                    <= u64::MAX
                &&& (context.ppqn as int * 4) / cfg.rate as int >= 1
            }) ==> spec_start_ticks(r@)
                == spec_arp_boundaries(old(self).spec_tick_accumulator(), 0,
                    context.ticks_to_generate as int,
                    (context.ppqn as int * 4) / old(self).spec_config().rate as int),
    {
        // Rebuild the sequence when it is missing or was built for
        // another scale.
        if self.note_sequence.len() == 0 || !self.sequence_matches(context) {
            self.build_sequence(context);
        }

        let ghost acc0 = old(self).spec_tick_accumulator();
        let ghost tpn = (context.ppqn as int * 4)
            / old(self).spec_config().rate as int;
        let ghost seq0 = self.spec_sequence();
        let ghost deterministic = old(self).spec_config().probability_permille == 1000
            && !old(self).spec_config().euclidean
            && self.spec_sequence().len() > 0
            && acc0 + context.ticks_to_generate <= u64::MAX
            && tpn >= 1;
        let mut events: Vec<MidiEvent> = Vec::new();
        let ticks_per_note = context.note_duration(self.config.rate);
        if ticks_per_note == 0 {
            return events;
        }
        proof {
            vstd::arithmetic::div_mod::lemma_div_nonincreasing(
                context.ppqn as int * 4, self.config.rate as int);
            vstd::arithmetic::mul::lemma_mul_upper_bound(
                ticks_per_note as int, 0x4_0000_0000, self.config.gate_permille as int, 1000);
            vstd::arithmetic::mul::lemma_mul_nonnegative(
                ticks_per_note as int, self.config.gate_permille as int);
        }
        let note_duration = ticks_per_note * self.config.gate_permille as u64 / 1000;

        // Process each tick position
        let ghost key_scale = context.key.spec_scale();
        let mut tick: u64 = 0;
        while tick < context.ticks_to_generate
            invariant
                self.wf(),
                self.spec_config() == old(self).spec_config(),
                self.spec_seq_root_pc() == key_scale.spec_root().pc(),
                self.spec_seq_ivals() == key_scale.ivals(),
                context.wf(),
                key_scale == context.key.spec_scale(),
                events_in_scale(events@, context.key),
                forall|i: int| 0 <= i < events@.len()
                    ==> (#[trigger] events@[i]).velocity == old(self).spec_config().velocity
                        || events@[i].velocity == old(self).spec_config().accent_velocity,
                forall|i: int| 0 <= i < events@.len()
                    ==> (#[trigger] events@[i]).start_tick < context.ticks_to_generate,
                tick <= context.ticks_to_generate,
                ticks_per_note >= 1,
                self.spec_tick_accumulator() == acc0,
                self.spec_sequence() == seq0,
                deterministic ==> {
                    &&& ticks_per_note as int == tpn
                    &&& self.spec_sequence().len() > 0
                    &&& spec_arp_boundaries(acc0, 0,
                        context.ticks_to_generate as int, tpn)
                        == spec_start_ticks(events@)
                            + spec_arp_boundaries(acc0, tick as int,
                                context.ticks_to_generate as int, tpn)
                },
            decreases context.ticks_to_generate - tick,
        {
            let ghost emap0 = spec_start_ticks(events@);
            let total_tick = if self.tick_accumulator <= u64::MAX - tick {
                self.tick_accumulator + tick
            } else {
                tick
            };

            // Check if we're on a note boundary
            if total_tick % ticks_per_note == 0 {
                // Check probability
                let roll = crate::rng::rand_permille(&mut self.rng);
                if (roll as u16) < self.config.probability_permille {
                    // Check euclidean pattern
                    if self.should_play_euclidean() {
                        match self.next_note() {
                            Some(note) => {
                                // Accent on bar boundaries
                                let bar_len = context.ticks_per_bar();
                                let velocity = if total_tick % bar_len == 0 {
                                    self.config.accent_velocity
                                } else {
                                    self.config.velocity
                                };
                                proof {
                                    let sq = self.spec_sequence();
                                    let w = choose|w: int| 0 <= w < sq.len() && sq[w] == note;
                                    assert(pc_in_ivals(note as int % 12,
                                        key_scale.spec_root().pc(), key_scale.ivals()));
                                    let v = choose|v: int| 0 <= v < key_scale.ivals().len()
                                        && (key_scale.spec_root().pc()
                                            + key_scale.ivals()[v]) % 12 == note as int % 12;
                                    assert(key_scale.pc_at(v) == note as int % 12);
                                    assert(key_scale.has_pc(note as int % 12));
                                }
                                events.push(MidiEvent::new(note, velocity, tick, note_duration));
                            },
                            None => {},
                        }
                    }
                }
            }

            proof {
                if deterministic {
                    let w = context.ticks_to_generate as int;
                    if (acc0 + tick) % tpn == 0 {
                        assert(spec_arp_boundaries(acc0, tick as int, w, tpn)
                            == seq![tick as u64]
                                + spec_arp_boundaries(acc0, tick as int + 1, w, tpn));
                        assert(spec_start_ticks(events@) =~= emap0.push(tick));
                        assert(emap0 + (seq![tick as u64]
                            + spec_arp_boundaries(acc0, tick as int + 1, w, tpn))
                            =~= emap0.push(tick)
                                + spec_arp_boundaries(acc0, tick as int + 1, w, tpn));
                    } else {
                        assert(spec_arp_boundaries(acc0, tick as int, w, tpn)
                            == spec_arp_boundaries(acc0, tick as int + 1, w, tpn));
                        assert(spec_start_ticks(events@) =~= emap0);
                    }
                }
            }
            tick = tick + 1;
        }
        proof {
            if deterministic {
                let w = context.ticks_to_generate as int;
                assert(spec_arp_boundaries(acc0, w, w, tpn) =~= Seq::<u64>::empty());
                assert(spec_start_ticks(events@) + Seq::<u64>::empty()
                    =~= spec_start_ticks(events@));
                assert(spec_start_ticks(events@)
                    == spec_arp_boundaries(acc0, 0, w, tpn));
            }
        }

        self.tick_accumulator = if self.tick_accumulator
            <= u64::MAX - context.ticks_to_generate {
            self.tick_accumulator + context.ticks_to_generate
        } else {
            u64::MAX
        };
        events
    }
}

/// Insertion sort of MIDI notes, ascending; the result holds scale tones
/// whenever the input did.
/// The in-range notes of the chosen degrees at one octave, walking the
/// degree list from position `d`: degree `d + 1` of the scale when every
/// degree is used, else the `d`-th configured degree.
pub open spec fn spec_arp_degree_row(scale: Scale, degrees: Seq<usize>, use_all: bool,
    count: int, octave: int, d: int) -> Seq<u8>
    decreases count - d,
{
    if d < 0 || d >= count {
        Seq::empty()
    } else {
        let degree = if use_all { d + 1 } else { degrees[d] as int };
        let m = scale.spec_midi_at(degree, octave);
        let rest = spec_arp_degree_row(scale, degrees, use_all, count, octave, d + 1);
        if 1 <= degree <= scale.spec_len() && 0 <= m <= 127 {
            seq![m as u8] + rest
        } else {
            rest
        }
    }
}

/// The rows of all octaves from offset `o` up, in order.
pub open spec fn spec_arp_raw(scale: Scale, degrees: Seq<usize>, use_all: bool,
    count: int, base_octave: int, octaves: int, o: int) -> Seq<u8>
    decreases octaves - o,
{
    if o < 0 || o >= octaves {
        Seq::empty()
    } else {
        spec_arp_degree_row(scale, degrees, use_all, count, base_octave + o, 0)
            + spec_arp_raw(scale, degrees, use_all, count, base_octave, octaves, o + 1)
    }
}

/// The window offsets at which a note boundary falls, walking from
/// offset `t`: those `t` below `window` with `acc + t` on a multiple of
/// `tpn`.
pub open spec fn spec_arp_boundaries(acc: int, t: int, window: int, tpn: int)
    -> Seq<u64>
    decreases window - t,
{
    if t < 0 || t >= window {
        Seq::empty()
    } else if (acc + t) % tpn == 0 {
        seq![t as u64] + spec_arp_boundaries(acc, t + 1, window, tpn)
    } else {
        spec_arp_boundaries(acc, t + 1, window, tpn)
    }
}

/// The start offsets of a list of events, in order.
pub open spec fn spec_start_ticks(events: Seq<MidiEvent>) -> Seq<u64> {
    events.map_values(|e: MidiEvent| e.start_tick)
}

/// Inserting anywhere in a note list adds one copy to its multiset.
proof fn lemma_note_insert_to_multiset(s: Seq<u8>, i: int, a: u8)
    requires
        0 <= i <= s.len(),
    ensures
        s.insert(i, a).to_multiset() == s.to_multiset().insert(a),
{
    broadcast use vstd::seq_lib::group_to_multiset_ensures;

    let t = s.insert(i, a);
    assert(t[i] == a);
    assert(t.remove(i) =~= s);
    assert(t.remove(i).to_multiset() =~= t.to_multiset().remove(a));
    assert(t.to_multiset().contains(a)) by {
        assert(t.contains(a));
    }
    assert(t.to_multiset() =~= s.to_multiset().insert(a));
}

fn sort_notes_ascending(notes: Vec<u8>, ghost_scale: Ghost<Scale>) -> (r: Vec<u8>)
    requires
        forall|i: int| 0 <= i < notes@.len()
            ==> ghost_scale@.has_pc(#[trigger] notes@[i] as int % 12),
    ensures
        r@.len() == notes@.len(),
        r@.to_multiset() == notes@.to_multiset(),
        forall|i: int, j: int| 0 <= i < j < r@.len() ==> #[trigger] r@[i] <= #[trigger] r@[j],
        forall|i: int| 0 <= i < r@.len() ==> ghost_scale@.has_pc(#[trigger] r@[i] as int % 12),
{
    let mut sorted: Vec<u8> = Vec::new();
    proof {
        broadcast use vstd::seq_lib::group_to_multiset_ensures;
        assert(notes@.take(0) =~= Seq::<u8>::empty());
        assert(sorted@.to_multiset() =~= notes@.take(0).to_multiset());
    }
    let mut i: usize = 0;
    while i < notes.len()
        invariant
            0 <= i <= notes@.len(),
            sorted@.len() == i,
            sorted@.to_multiset() == notes@.take(i as int).to_multiset(),
            forall|a: int, b: int| 0 <= a < b < sorted@.len()
                ==> #[trigger] sorted@[a] <= #[trigger] sorted@[b],
            forall|a: int| 0 <= a < sorted@.len()
                ==> ghost_scale@.has_pc(#[trigger] sorted@[a] as int % 12),
            forall|a: int| 0 <= a < notes@.len()
                ==> ghost_scale@.has_pc(#[trigger] notes@[a] as int % 12),
        decreases notes@.len() - i,
    {
        let x = notes[i];
        let mut pos: usize = 0;
        while pos < sorted.len() && sorted[pos] <= x
            invariant
                0 <= pos <= sorted@.len(),
                forall|a: int| 0 <= a < pos ==> #[trigger] sorted@[a] <= x,
            decreases sorted@.len() - pos,
        {
            pos = pos + 1;
        }
        let ghost before = sorted@;
        sorted.insert(pos, x);
        proof {
            broadcast use vstd::seq_lib::group_to_multiset_ensures;
            lemma_note_insert_to_multiset(before, pos as int, x);
            assert(notes@.take(i as int + 1) =~= notes@.take(i as int).push(x));
            assert forall|a: int, b: int| 0 <= a < b < sorted@.len()
                implies #[trigger] sorted@[a] <= #[trigger] sorted@[b] by {
                if b < pos {
                    assert(sorted@[a] == before[a] && sorted@[b] == before[b]);
                } else if a > pos {
                    assert(sorted@[a] == before[a - 1] && sorted@[b] == before[b - 1]);
                } else if a < pos && b == pos {
                    assert(sorted@[a] == before[a]);
                } else if a == pos {
                    assert(sorted@[b] == before[b - 1]);
                    assert(x < before[pos as int] || pos == before.len());
                } else {
                    assert(sorted@[a] == before[a] && sorted@[b] == before[b - 1]);
                }
            }
            assert forall|a: int| 0 <= a < sorted@.len()
                implies ghost_scale@.has_pc(#[trigger] sorted@[a] as int % 12) by {
                if a < pos {
                    assert(sorted@[a] == before[a]);
                } else if a > pos {
                    assert(sorted@[a] == before[a - 1]);
                }
            }
        }
        i = i + 1;
    }
    proof {
        assert(notes@.take(notes@.len() as int) =~= notes@);
    }
    sorted
}

/// Reverse a note list; the result holds scale tones whenever the input
/// did.
fn reverse_notes(notes: Vec<u8>, ghost_scale: Ghost<Scale>) -> (r: Vec<u8>)
    requires
        forall|i: int| 0 <= i < notes@.len()
            ==> ghost_scale@.has_pc(#[trigger] notes@[i] as int % 12),
    ensures
        r@ == notes@.reverse(),
        forall|i: int| 0 <= i < r@.len() ==> ghost_scale@.has_pc(#[trigger] r@[i] as int % 12),
{
    let n = notes.len();
    let mut r: Vec<u8> = Vec::new();
    let mut i: usize = 0;
    while i < n
        invariant
            0 <= i <= n,
            n == notes@.len(),
            r@.len() == i,
            forall|j: int| 0 <= j < i ==> #[trigger] r@[j] == notes@[n - 1 - j],
            forall|j: int| 0 <= j < notes@.len()
                ==> ghost_scale@.has_pc(#[trigger] notes@[j] as int % 12),
        decreases n - i,
    {
        r.push(notes[n - 1 - i]);
        i = i + 1;
    }
    proof {
        assert(r@ =~= notes@.reverse());
        assert forall|j: int| 0 <= j < r@.len()
            implies ghost_scale@.has_pc(#[trigger] r@[j] as int % 12) by {
            assert(r@[j] == notes@[n - 1 - j]);
        }
    }
    r
}

} // verus!
