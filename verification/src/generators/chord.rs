//! Chord generator for harmonic progressions.
//!
//! Generates chord progressions with various voicings, inversions,
//! and tension additions. Supports functional harmony and random-in-key
//! modes. Chord tones are always scale degrees of the key the chord was
//! built for (sevenths, ninths and suspensions included), and octave
//! shifts during voicing and inversion keep every pitch class in the
//! scale; the chord is rebuilt whenever the context's key changes.

use vstd::prelude::*;

use crate::generators::{GeneratorContext, MidiEvent, events_in_scale};
use crate::generators::arpeggio::pc_in_ivals;
use crate::music::scale::Scale;

verus! {

/// Chord voicing types
#[derive(Debug, Clone, Copy, PartialEq, Eq, Structural)]
pub enum Voicing {
    /// All notes close together
    Close,
    /// Root in bass, others spread
    Open,
    /// Drop the second-highest note an octave
    Drop2,
    /// Wide spread across octaves
    Spread,
}

impl Voicing {
    /// The voicing a small parameter value selects.
    pub open spec fn spec_from_value(v: int) -> Voicing {
        if v == 0 { Voicing::Close }
        else if v == 1 { Voicing::Open }
        else if v == 2 { Voicing::Drop2 }
        else { Voicing::Spread }
    }

    /// Decode a voicing from its parameter value.
    pub fn from_value(v: u8) -> (r: Self)
        ensures
            r == Voicing::spec_from_value(v as int),
    {
        match v {
            0 => Voicing::Close,
            1 => Voicing::Open,
            2 => Voicing::Drop2,
            _ => Voicing::Spread,
        }
    }

    /// Encode a voicing as its parameter value.
    pub fn to_value(self) -> (r: u8)
        ensures
            Voicing::spec_from_value(r as int) == self,
            r <= 3,
    {
        match self {
            Voicing::Close => 0,
            Voicing::Open => 1,
            Voicing::Drop2 => 2,
            Voicing::Spread => 3,
        }
    }
}

/// Inversion selection method
#[derive(Debug, Clone, Copy, PartialEq, Eq, Structural)]
pub enum InversionMode {
    /// Root position only
    Root,
    /// Random inversion
    Random,
    /// Choose smoothest voice leading
    VoiceLed,
    /// Cycle through inversions
    Ascending,
}

impl InversionMode {
    /// The mode a small parameter value selects.
    pub open spec fn spec_from_value(v: int) -> InversionMode {
        if v == 0 { InversionMode::Root }
        else if v == 1 { InversionMode::Random }
        else if v == 2 { InversionMode::VoiceLed }
        else { InversionMode::Ascending }
    }

    /// Decode a mode from its parameter value.
    pub fn from_value(v: u8) -> (r: Self)
        ensures
            r == InversionMode::spec_from_value(v as int),
    {
        match v {
            0 => InversionMode::Root,
            1 => InversionMode::Random,
            2 => InversionMode::VoiceLed,
            _ => InversionMode::Ascending,
        }
    }

    /// Encode a mode as its parameter value.
    pub fn to_value(self) -> (r: u8)
        ensures
            InversionMode::spec_from_value(r as int) == self,
            r <= 3,
    {
        match self {
            InversionMode::Root => 0,
            InversionMode::Random => 1,
            InversionMode::VoiceLed => 2,
            InversionMode::Ascending => 3,
        }
    }
}

/// Progression algorithm
#[derive(Debug, Clone, Copy, PartialEq, Eq, Structural)]
pub enum ProgressionMode {
    /// Functional harmony (I-IV-V-I style)
    Functional,
    /// Random chords in key
    RandomInKey,
    /// User-defined progression
    Custom,
}

impl ProgressionMode {
    /// The mode a small parameter value selects.
    pub open spec fn spec_from_value(v: int) -> ProgressionMode {
        if v == 0 { ProgressionMode::Functional }
        else if v == 1 { ProgressionMode::RandomInKey }
        else { ProgressionMode::Custom }
    }

    /// Decode a mode from its parameter value.
    pub fn from_value(v: u8) -> (r: Self)
        ensures
            r == ProgressionMode::spec_from_value(v as int),
    {
        match v {
            0 => ProgressionMode::Functional,
            1 => ProgressionMode::RandomInKey,
            _ => ProgressionMode::Custom,
        }
    }

    /// Encode a mode as its parameter value.
    pub fn to_value(self) -> (r: u8)
        ensures
            ProgressionMode::spec_from_value(r as int) == self,
            r <= 2,
    {
        match self {
            ProgressionMode::Functional => 0,
            ProgressionMode::RandomInKey => 1,
            ProgressionMode::Custom => 2,
        }
    }
}

/// Configuration for the chord generator. Probabilities are in
/// thousandths; the change rate is in thousandths of a beat.
#[derive(Debug, Clone, PartialEq)]
pub struct ChordConfig {
    /// Voicing type
    pub voicing: Voicing,
    /// Inversion selection
    pub inversion_mode: InversionMode,
    /// Progression algorithm
    pub progression_mode: ProgressionMode,
    /// How often chords change, in thousandths of a beat (>= 250)
    pub change_rate_millibeats: u32,
    /// Base octave (1..=6)
    pub base_octave: i8,
    /// Base velocity (1..=127)
    pub velocity: u8,
    /// Probability of adding a seventh, in thousandths (0..=1000)
    pub seventh_permille: u16,
    /// Probability of adding a ninth, in thousandths (0..=1000)
    pub ninth_permille: u16,
    /// Probability of a suspension, in thousandths (0..=1000)
    pub sus_permille: u16,
    /// Custom progression (1-based scale degrees)
    pub custom_progression: Vec<u8>,
}

impl ChordConfig {
    /// All numeric fields inside their documented ranges.
    pub open spec fn wf(self) -> bool {
        &&& 250 <= self.change_rate_millibeats
        &&& 1 <= self.base_octave <= 6
        &&& 1 <= self.velocity <= 127
        &&& self.seventh_permille <= 1000
        &&& self.ninth_permille <= 1000
        &&& self.sus_permille <= 1000
    }

    /// The configuration with every field forced into its range.
    pub open spec fn spec_clamped(self) -> ChordConfig {
        ChordConfig {
            voicing: self.voicing,
            inversion_mode: self.inversion_mode,
            progression_mode: self.progression_mode,
            change_rate_millibeats: crate::spec_clamp(
                self.change_rate_millibeats as int, 250, 0xFFFF_FFFF) as u32,
            base_octave: crate::spec_clamp(self.base_octave as int, 1, 6) as i8,
            velocity: crate::spec_clamp(self.velocity as int, 1, 127) as u8,
            seventh_permille: crate::spec_clamp(self.seventh_permille as int, 0, 1000) as u16,
            ninth_permille: crate::spec_clamp(self.ninth_permille as int, 0, 1000) as u16,
            sus_permille: crate::spec_clamp(self.sus_permille as int, 0, 1000) as u16,
            custom_progression: self.custom_progression,
        }
    }

    /// The configuration with every field forced into its range.
    pub fn clamped(self) -> (r: Self)
        ensures
            r == self.spec_clamped(),
            r.wf(),
    {
        ChordConfig {
            voicing: self.voicing,
            inversion_mode: self.inversion_mode,
            progression_mode: self.progression_mode,
            change_rate_millibeats: crate::clamp_u32(
                self.change_rate_millibeats, 250, 0xFFFF_FFFF),
            base_octave: crate::clamp_i8(self.base_octave, 1, 6),
            velocity: crate::clamp_u8(self.velocity, 1, 127),
            seventh_permille: crate::clamp_u16(self.seventh_permille, 0, 1000),
            ninth_permille: crate::clamp_u16(self.ninth_permille, 0, 1000),
            sus_permille: crate::clamp_u16(self.sus_permille, 0, 1000),
            custom_progression: self.custom_progression,
        }
    }

    /// The default configuration: close-voiced root-position functional
    /// harmony, one chord per bar, with mild sevenths and rare ninths and
    /// suspensions over a I-IV-V-I custom progression.
    pub open spec fn is_default(self) -> bool {
        &&& self.voicing == Voicing::Close
        &&& self.inversion_mode == InversionMode::Root
        &&& self.progression_mode == ProgressionMode::Functional
        &&& self.change_rate_millibeats == 4000
        &&& self.base_octave == 3
        &&& self.velocity == 90
        &&& self.seventh_permille == 300
        &&& self.ninth_permille == 100
        &&& self.sus_permille == 100
        &&& self.custom_progression@ == seq![1u8, 4u8, 5u8, 1u8]
    }
}

impl Default for ChordConfig {
    /// See `ChordConfig::is_default`.
    fn default() -> (r: Self)
        ensures
            r.is_default(),
            r.wf(),
    {
        let mut progression: Vec<u8> = Vec::new();
        progression.push(1);
        progression.push(4);
        progression.push(5);
        progression.push(1);
        proof {
            assert(progression@ =~= seq![1u8, 4u8, 5u8, 1u8]);
        }
        Self {
            voicing: Voicing::Close,
            inversion_mode: InversionMode::Root,
            progression_mode: ProgressionMode::Functional,
            change_rate_millibeats: 4000,  // One chord per bar in 4/4
            base_octave: 3,
            velocity: 90,
            seventh_permille: 300,
            ninth_permille: 100,
            sus_permille: 100,
            custom_progression: progression,
        }
    }
}

/// Every chord tone's pitch class occurs in the scale described by a
/// root pitch class and interval list.
pub open spec fn chord_ok(chord: Seq<u8>, root_pc: int, ivals: Seq<u8>) -> bool {
    forall|i: int| 0 <= i < chord.len()
        ==> pc_in_ivals(#[trigger] chord[i] as int % 12, root_pc, ivals)
}

/// Chord generator
pub struct ChordGenerator {
    config: ChordConfig,
    /// Current position in progression
    progression_position: usize,
    /// Current chord notes (MIDI)
    current_chord: Vec<u8>,
    /// Previous chord for voice leading
    previous_chord: Vec<u8>,
    /// Root pitch class of the scale the chord was built for
    chord_root_pc: u8,
    /// Intervals of the scale the chord was built for
    chord_ivals: Vec<u8>,
    /// Tick accumulator
    tick_accumulator: u64,
    /// Current inversion for ascending mode
    current_inversion: u8,
    rng: rand::rngs::StdRng,
}

impl ChordGenerator {
    /// The configuration.
    pub closed spec fn spec_config(self) -> ChordConfig {
        self.config
    }

    /// The cached chord.
    pub closed spec fn spec_chord(self) -> Seq<u8> {
        self.current_chord@
    }

    /// Root pitch class the cached chord was built for.
    pub closed spec fn spec_chord_root_pc(self) -> int {
        self.chord_root_pc as int
    }

    /// Scale intervals the cached chord was built for.
    pub closed spec fn spec_chord_ivals(self) -> Seq<u8> {
        self.chord_ivals@
    }

    /// The mutable playing state apart from the random source.
    pub closed spec fn spec_state(self) -> (int, Seq<u8>, Seq<u8>, int, int) {
        (
            self.progression_position as int,
            self.current_chord@,
            self.previous_chord@,
            self.tick_accumulator as int,
            self.current_inversion as int,
        )
    }

    /// The state a freshly created generator starts in.
    pub open spec fn spec_fresh_state() -> (int, Seq<u8>, Seq<u8>, int, int) {
        (0, Seq::empty(), Seq::empty(), 0, 0)
    }

    /// Configuration in range and every cached chord tone a scale tone of
    /// the scale it was built for.
    pub open spec fn wf(self) -> bool {
        &&& self.spec_config().wf()
        &&& chord_ok(self.spec_chord(), self.spec_chord_root_pc(), self.spec_chord_ivals())
    }

    /// Create a new chord generator
    pub fn new() -> (r: Self)
        ensures
            r.wf(),
            r.spec_config().is_default(),
            r.spec_state() == ChordGenerator::spec_fresh_state(),
    {
        Self {
            config: ChordConfig::default(),
            progression_position: 0,
            current_chord: Vec::new(),
            previous_chord: Vec::new(),
            chord_root_pc: 0,
            chord_ivals: Vec::new(),
            tick_accumulator: 0,
            current_inversion: 0,
            rng: crate::rng::fresh_rng(),
        }
    }

    /// The generator's name.
    pub fn name(&self) -> (r: &'static str)
        ensures
            r@ == "chord"@,
    {
        "chord"
    }

    /// The current configuration.
    pub fn config(&self) -> (r: &ChordConfig)
        ensures
            *r == self.spec_config(),
    {
        &self.config
    }

    /// Replace the configuration; every field is forced into its range.
    pub fn set_config(&mut self, config: ChordConfig)
        requires
            old(self).wf(),
        ensures
            final(self).wf(),
            final(self).spec_config() == config.spec_clamped(),
            final(self).spec_state() == old(self).spec_state(),
    {
        self.config = config.clamped();
    }

    /// Reset the generator: the next window starts the progression over
    /// with a fresh chord. The configuration is kept.
    pub fn reset(&mut self)
        requires
            old(self).wf(),
        ensures
            final(self).wf(),
            final(self).spec_config() == old(self).spec_config(),
            final(self).spec_state() == ChordGenerator::spec_fresh_state(),
    {
        self.progression_position = 0;
        self.current_chord = Vec::new();
        self.previous_chord = Vec::new();
        self.tick_accumulator = 0;
        self.current_inversion = 0;
    }

    /// The next chord root degree (1-based): the progression's next entry
    /// for Functional and Custom modes, or a uniformly random degree for
    /// RandomInKey. Always at least one.
    fn next_root_degree(&mut self) -> (r: u8)
        requires
            old(self).wf(),
        ensures
            final(self).wf(),
            final(self).spec_config() == old(self).spec_config(),
            final(self).spec_chord() == old(self).spec_chord(),
            final(self).spec_chord_root_pc() == old(self).spec_chord_root_pc(),
            final(self).spec_chord_ivals() == old(self).spec_chord_ivals(),
            r >= 1,
            // Functional stays on the five stock progressions' degrees;
            // RandomInKey stays on the seven diatonic degrees; Custom is
            // deterministic: the current progression entry, advancing.
            old(self).spec_config().progression_mode == ProgressionMode::Functional
                ==> 1 <= r <= 6 && final(self).spec_state().0
                    == (if old(self).spec_state().0 < usize::MAX as int {
                        old(self).spec_state().0 + 1
                    } else {
                        0int
                    }),
            old(self).spec_config().progression_mode == ProgressionMode::RandomInKey
                ==> 1 <= r <= 7,
            old(self).spec_config().progression_mode == ProgressionMode::Custom
                ==> ({
                    let prog = old(self).spec_config().custom_progression@;
                    if prog.len() == 0 {
                        r == 1 && *final(self) == *old(self)
                    } else {
                        let deg = prog[old(self).spec_state().0 % prog.len() as int];
                        &&& r == (if deg == 0 { 1 as u8 } else { deg })
                        &&& final(self).spec_state().0
                            == (if old(self).spec_state().0 < usize::MAX as int {
                                old(self).spec_state().0 + 1
                            } else {
                                0int
                            })
                    }
                }),
    {
        match self.config.progression_mode {
            ProgressionMode::Functional => {
                // Common functional progressions
                let which = crate::rng::rand_below(&mut self.rng, 5);
                let step = self.progression_position % 4;
                let degree: u8 = if which == 0 {
                    // I-IV-V-I
                    if step == 0 { 1 } else if step == 1 { 4 } else if step == 2 { 5 } else { 1 }
                } else if which == 1 {
                    // I-V-vi-IV
                    if step == 0 { 1 } else if step == 1 { 5 } else if step == 2 { 6 } else { 4 }
                } else if which == 2 {
                    // ii-V-I-I
                    if step == 0 { 2 } else if step == 1 { 5 } else { 1 }
                } else if which == 3 {
                    // I-vi-IV-V
                    if step == 0 { 1 } else if step == 1 { 6 } else if step == 2 { 4 } else { 5 }
                } else {
                    // I-IV-vi-V
                    if step == 0 { 1 } else if step == 1 { 4 } else if step == 2 { 6 } else { 5 }
                };
                self.progression_position = if self.progression_position < usize::MAX {
                    self.progression_position + 1
                } else {
                    0
                };
                degree
            },
            ProgressionMode::RandomInKey => {
                1 + crate::rng::rand_below(&mut self.rng, 7) as u8
            },
            ProgressionMode::Custom => {
                if self.config.custom_progression.len() == 0 {
                    return 1;
                }
                let idx = self.progression_position % self.config.custom_progression.len();
                let degree = self.config.custom_progression[idx];
                self.progression_position = if self.progression_position < usize::MAX {
                    self.progression_position + 1
                } else {
                    0
                };
                if degree == 0 {
                    1
                } else {
                    degree
                }
            },
        }
    }

    /// Generate events for one window: a sustained event per chord tone at
    /// the configured velocity, covering the window. A new chord is built
    /// at every change-rate boundary, when none is cached, and whenever
    /// the key changed. Every emitted note is a scale tone of the
    /// context's key.
    pub fn generate(&mut self, context: &GeneratorContext) -> (r: Vec<MidiEvent>)
        requires
            old(self).wf(),
            context.wf(),
        ensures
            final(self).wf(),
            final(self).spec_config() == old(self).spec_config(),
            events_in_scale(r@, context.key),
            r@.len() == final(self).spec_chord().len(),
            forall|i: int| 0 <= i < r@.len()
                ==> (#[trigger] r@[i]).velocity == old(self).spec_config().velocity
                    && r@[i].start_tick == 0
                    && r@[i].duration_ticks == context.ticks_to_generate,
            // A fresh generator over a nonempty scale whose triad lies in
            // range builds a chord of at least the three triad tones.
            ({
                let len = context.key.spec_scale().spec_len() as int;
                &&& old(self).spec_chord().len() == 0
                &&& len >= 1
                &&& old(self).spec_config().progression_mode != ProgressionMode::Custom
                &&& 10int / len + old(self).spec_config().base_octave <= 8
            }) ==> r@.len() >= 3,
    {
        let mut events: Vec<MidiEvent> = Vec::new();
        // Thousandths of a beat to ticks: ppqn * rate / 1000.
        proof {
            vstd::arithmetic::mul::lemma_mul_nonnegative(
                context.ppqn as int, self.config.change_rate_millibeats as int);
            vstd::arithmetic::mul::lemma_mul_upper_bound(
                context.ppqn as int, 0x1_0000_0000,
                self.config.change_rate_millibeats as int, 0x1_0000_0000);
        }
        let ticks_per_change_wide: u64 =
            ((context.ppqn as u128 * self.config.change_rate_millibeats as u128) / 1000) as u64;
        let ticks_per_change = if ticks_per_change_wide == 0 { 1 } else { ticks_per_change_wide };

        // Build a new chord at a boundary, when none is cached, or when
        // the key changed.
        if self.current_chord.len() == 0
            || self.tick_accumulator % ticks_per_change == 0
            || !self.chord_matches(context) {
            self.previous_chord = clone_notes(&self.current_chord);
            let root = self.next_root_degree();
            proof {
                let len = context.key.spec_scale().spec_len() as int;
                if len >= 1 && root <= 7 {
                    vstd::arithmetic::div_mod::lemma_div_is_ordered(
                        root as int + 3, 10, len);
                }
            }
            self.build_chord(root, context);
        }

        // Generate events for the current chord
        let ghost key_scale = context.key.spec_scale();
        let n = self.current_chord.len();
        let mut i: usize = 0;
        while i < n
            invariant
                0 <= i <= n,
                n == self.spec_chord().len(),
                self.wf(),
                self.spec_chord_root_pc() == key_scale.spec_root().pc(),
                self.spec_chord_ivals() == key_scale.ivals(),
                key_scale == context.key.spec_scale(),
                self.spec_config() == old(self).spec_config(),
                events@.len() == i,
                events_in_scale(events@, context.key),
                forall|j: int| 0 <= j < events@.len()
                    ==> (#[trigger] events@[j]).velocity == old(self).spec_config().velocity
                        && events@[j].start_tick == 0
                        && events@[j].duration_ticks == context.ticks_to_generate,
            decreases n - i,
        {
            let note = self.current_chord[i];
            proof {
                assert(pc_in_ivals(note as int % 12,
                    key_scale.spec_root().pc(), key_scale.ivals()));
                let v = choose|v: int| 0 <= v < key_scale.ivals().len()
                    && (key_scale.spec_root().pc() + key_scale.ivals()[v]) % 12
                        == note as int % 12;
                assert(key_scale.pc_at(v) == note as int % 12);
                assert(key_scale.has_pc(note as int % 12));
            }
            events.push(MidiEvent::new(note, self.config.velocity, 0, context.ticks_to_generate));
            i = i + 1;
        }

        self.tick_accumulator = if self.tick_accumulator
            <= u64::MAX - context.ticks_to_generate {
            self.tick_accumulator + context.ticks_to_generate
        } else {
            u64::MAX
        };
        events
    }

    /// Whether the cached chord was built for the context's scale.
    fn chord_matches(&self, context: &GeneratorContext) -> (r: bool)
        ensures
            r == (self.spec_chord_root_pc() == context.key.spec_scale().spec_root().pc()
                && self.spec_chord_ivals() == context.key.spec_scale().ivals()),
    {
        let scale = context.key.scale();
        if self.chord_root_pc != scale.root().pitch_class() {
            return false;
        }
        let ivals = scale.intervals();
        if self.chord_ivals.len() != ivals.len() {
            return false;
        }
        let n = ivals.len();
        let mut i: usize = 0;
        while i < n
            invariant
                0 <= i <= n,
                n == self.chord_ivals@.len(),
                n == context.key.spec_scale().ivals().len(),
                ivals@ == context.key.spec_scale().ivals(),
                forall|j: int| 0 <= j < i
                    ==> self.chord_ivals@[j] == context.key.spec_scale().ivals()[j],
            decreases n - i,
        {
            if self.chord_ivals[i] != ivals[i] {
                return false;
            }
            i = i + 1;
        }
        proof {
            assert(self.chord_ivals@ =~= context.key.spec_scale().ivals());
        }
        true
    }

    /// Build a chord from a 1-based root scale degree: the triad degrees
    /// root, root+2, root+4, an optional seventh (root+6) and ninth
    /// (root+8, an octave up), and an optional suspension replacing the
    /// third with the fourth; then voicing and inversion. Every tone is a
    /// scale tone of the context's key.
    fn build_chord(&mut self, root_degree: u8, context: &GeneratorContext)
        requires
            old(self).wf(),
            root_degree >= 1,
        ensures
            final(self).wf(),
            final(self).spec_config() == old(self).spec_config(),
            final(self).spec_chord_root_pc()
                == context.key.spec_scale().spec_root().pc(),
            final(self).spec_chord_ivals() == context.key.spec_scale().ivals(),
            final(self).spec_tick_accumulator() == old(self).spec_tick_accumulator(),
            // When the whole triad lies in range, the chord holds at
            // least its three tones.
            ({
                let len = context.key.spec_scale().spec_len() as int;
                len >= 1 && (root_degree + 3) as int / len
                    + old(self).spec_config().base_octave <= 8
            }) ==> final(self).spec_chord().len() >= 3,
            // With no suspension, the wrapped triad degrees' pitch
            // classes all sound in the finished chord.
            ({
                let len = context.key.spec_scale().spec_len() as int;
                &&& len >= 1
                &&& (root_degree + 3) as int / len
                    + old(self).spec_config().base_octave <= 8
                &&& old(self).spec_config().sus_permille == 0
            }) ==> forall|t: int| 0 <= t < 3
                ==> #[trigger] spec_holds_pc(final(self).spec_chord(),
                    context.key.spec_scale().pc_at(
                        (root_degree - 1 + 2 * t) as int
                            % context.key.spec_scale().spec_len() as int)),
    {
        let scale = context.key.scale();
        let mut notes: Vec<u8> = Vec::new();
        proof {
            let len = context.key.spec_scale().spec_len() as int;
            if len >= 1 {
                let bound = (root_degree + 3) as int;
                vstd::arithmetic::div_mod::lemma_div_is_ordered(
                    root_degree as int - 1, bound, len);
                vstd::arithmetic::div_mod::lemma_div_is_ordered(
                    root_degree as int + 1, bound, len);
                vstd::arithmetic::div_mod::lemma_div_is_ordered(
                    root_degree as int + 3, bound, len);
                if bound / len + old(self).spec_config().base_octave <= 8 {
                    assert(bound / len <= 7);
                }
            }
        }

        if scale.len() > 0 {
            // Basic triad: 1, 3, 5 from root
            match degree_note(scale, root_degree as u32, self.config.base_octave, 0) {
                Some(n) => notes.push(n),
                None => {},
            }
            match degree_note(scale, root_degree as u32 + 2, self.config.base_octave, 0) {
                Some(n) => notes.push(n),
                None => {},
            }
            match degree_note(scale, root_degree as u32 + 4, self.config.base_octave, 0) {
                Some(n) => notes.push(n),
                None => {},
            }

            // Add 7th
            let roll7 = crate::rng::rand_permille(&mut self.rng);
            if (roll7 as u16) < self.config.seventh_permille {
                match degree_note(scale, root_degree as u32 + 6, self.config.base_octave, 0) {
                    Some(n) => notes.push(n),
                    None => {},
                }
            }

            // Add 9th
            let roll9 = crate::rng::rand_permille(&mut self.rng);
            if (roll9 as u16) < self.config.ninth_permille {
                match degree_note(scale, root_degree as u32 + 8, self.config.base_octave, 1) {
                    Some(n) => notes.push(n),
                    None => {},
                }
            }

            // Sus4 replaces the 3rd
            let roll_sus = crate::rng::rand_permille(&mut self.rng);
            if (roll_sus as u16) < self.config.sus_permille && notes.len() >= 2 {
                match degree_note(scale, root_degree as u32 + 3, self.config.base_octave, 0) {
                    Some(n) => {
                        notes.set(1, n);
                    },
                    None => {},
                }
            }
        }

        proof {
            let lenq = context.key.spec_scale().spec_len() as int;
            if lenq >= 1 && (root_degree + 3) as int / lenq
                + old(self).spec_config().base_octave <= 8
                && old(self).spec_config().sus_permille == 0 {
                assert forall|t: int| 0 <= t < 3
                    implies #[trigger] spec_holds_pc(notes@,
                        context.key.spec_scale().pc_at(
                            (root_degree - 1 + 2 * t) as int % lenq)) by {
                    assert((notes@[t] as int) % 12 == context.key.spec_scale()
                        .pc_at((root_degree - 1 + 2 * t) as int % lenq));
                }
            }
        }

        let ghost base_notes = notes@;
        // Apply voicing
        let notes = self.apply_voicing(notes, Ghost(*scale));
        let ghost voiced_notes = notes@;

        // Apply inversion
        let notes = self.apply_inversion(notes, Ghost(*scale));

        proof {
            let lenq = context.key.spec_scale().spec_len() as int;
            if lenq >= 1 && (root_degree + 3) as int / lenq
                + old(self).spec_config().base_octave <= 8
                && old(self).spec_config().sus_permille == 0 {
                assert forall|t: int| 0 <= t < 3
                    implies #[trigger] spec_holds_pc(notes@,
                        context.key.spec_scale().pc_at(
                            (root_degree - 1 + 2 * t) as int % lenq)) by {
                    let pc = context.key.spec_scale().pc_at(
                        (root_degree - 1 + 2 * t) as int % lenq);
                    assert(spec_holds_pc(base_notes, pc));
                    assert(spec_holds_pc(voiced_notes, pc));
                    assert(spec_holds_pc(notes@, pc));
                }
            }
        }

        self.current_chord = notes;
        self.chord_root_pc = scale.root().pitch_class();
        let ivs = scale.intervals();
        let mut ivals_copy: Vec<u8> = Vec::new();
        let mut k: usize = 0;
        while k < ivs.len()
            invariant
                0 <= k <= ivs@.len(),
                ivals_copy@ == ivs@.take(k as int),
            decreases ivs@.len() - k,
        {
            ivals_copy.push(ivs[k]);
            proof {
                assert(ivals_copy@ =~= ivs@.take(k as int + 1));
            }
            k = k + 1;
        }
        proof {
            assert(ivs@.take(ivs@.len() as int) =~= ivs@);
        }
        self.chord_ivals = ivals_copy;
        proof {
            assert forall|i: int| 0 <= i < self.current_chord@.len()
                implies pc_in_ivals(#[trigger] self.current_chord@[i] as int % 12,
                    self.spec_chord_root_pc(), self.spec_chord_ivals()) by {
                assert(scale.has_pc(self.current_chord@[i] as int % 12));
                let w = choose|w: int| 0 <= w < scale.spec_len()
                    && scale.pc_at(w) == self.current_chord@[i] as int % 12;
                assert((self.spec_chord_root_pc() + self.spec_chord_ivals()[w]) % 12
                    == self.current_chord@[i] as int % 12);
            }
        }
    }

    /// The running tick count.
    pub closed spec fn spec_tick_accumulator(self) -> int {
        self.tick_accumulator as int
    }

    /// Apply voicing to chord notes: Close sorts; Open lifts the middle
    /// tones an octave; Drop2 drops the second-highest an octave; Spread
    /// lifts the upper part of the chord across octaves. Octave moves are
    /// skipped when they would leave the MIDI range, so every pitch class
    /// is kept in the scale.
    fn apply_voicing(&self, notes: Vec<u8>, scale: Ghost<Scale>) -> (r: Vec<u8>)
        requires
            forall|i: int| 0 <= i < notes@.len()
                ==> scale@.has_pc(#[trigger] notes@[i] as int % 12),
        ensures
            r@.len() == notes@.len(),
            forall|i: int| 0 <= i < r@.len()
                ==> scale@.has_pc(#[trigger] r@[i] as int % 12),
            notes@.len() >= 3 ==> forall|i: int, j: int| 0 <= i < j < r@.len()
                ==> #[trigger] r@[i] <= #[trigger] r@[j],
            notes@.len() < 3 ==> r@ == notes@,
            // Close keeps the tones and orders them; the other voicings
            // move exactly their documented tones an octave (while they
            // stay in range) and re-order.
            forall|pc: int| #[trigger] spec_holds_pc(notes@, pc)
                ==> spec_holds_pc(r@, pc),
            notes@.len() >= 3 ==> ({
                let m = spec_note_sorted(notes@);
                match self.spec_config().voicing {
                    Voicing::Close => r@ == m,
                    Voicing::Open => r@ == spec_note_sorted(
                        Seq::new(m.len(), |i: int| if 1 <= i && i + 1 < m.len()
                            && m[i] <= 115 { (m[i] + 12) as u8 } else { m[i] })),
                    Voicing::Drop2 => r@ == spec_note_sorted(
                        Seq::new(m.len(), |i: int| if i == m.len() - 2
                            && m[i] >= 12 { (m[i] - 12) as u8 } else { m[i] })),
                    Voicing::Spread => r@ == spec_note_sorted(
                        Seq::new(m.len(), |i: int| if i >= m.len() / 2
                            && m[i] <= 115 { (m[i] + 12) as u8 } else { m[i] })),
                }
            }),
    {
        if notes.len() < 3 {
            return notes;
        }
        let ghost m = spec_note_sorted(notes@);

        match self.config.voicing {
            Voicing::Close => {
                // Notes already close, just sort
                let out = sort_chord(notes, scale);
                proof {
                    assert forall|pc: int| #[trigger] spec_holds_pc(notes@, pc)
                        implies spec_holds_pc(out@, pc) by {
                        lemma_pc_kept_multiset(notes@, out@, pc);
                    }
                }
                out
            },
            Voicing::Open => {
                // Move middle notes up an octave
                let mut sorted = sort_chord(notes, scale);
                let n = sorted.len();
                let mut i: usize = 1;
                while i < n && i + 1 < n
                    invariant
                        1 <= i <= n,
                        n == sorted@.len(),
                        n == m.len(),
                        n >= 3,
                        forall|j: int| 0 <= j < n ==> #[trigger] sorted@[j]
                            == (if 1 <= j < i && j + 1 < n && m[j] <= 115 {
                                (m[j] + 12) as u8
                            } else {
                                m[j]
                            }),
                        forall|j: int| 0 <= j < sorted@.len()
                            ==> scale@.has_pc(#[trigger] sorted@[j] as int % 12),
                    decreases n - i,
                {
                    let v = sorted[i];
                    if v <= 115 {
                        proof {
                            lemma_octave_up_keeps_pc(v);
                        }
                        sorted.set(i, v + 12);
                    }
                    i = i + 1;
                }
                proof {
                    assert(sorted@ =~= Seq::new(m.len(), |j: int| if 1 <= j
                        && j + 1 < m.len() && m[j] <= 115 {
                        (m[j] + 12) as u8
                    } else {
                        m[j]
                    }));
                }
                let out = sort_chord(sorted, scale);
                proof {
                    assert forall|j: int| 0 <= j < m.len()
                        implies (#[trigger] sorted@[j] as int) % 12
                            == (m[j] as int) % 12 by {
                        if m[j] <= 115 && 1 <= j && j + 1 < m.len() {
                            lemma_octave_up_keeps_pc(m[j]);
                        }
                    }
                    assert forall|pc: int| #[trigger] spec_holds_pc(notes@, pc)
                        implies spec_holds_pc(out@, pc) by {
                        lemma_pc_kept_sorted(notes@, pc);
                        lemma_pc_kept_octave_map(m, sorted@, pc);
                        lemma_pc_kept_multiset(sorted@, out@, pc);
                    }
                }
                out
            },
            Voicing::Drop2 => {
                // Drop second-highest note an octave
                let mut sorted = sort_chord(notes, scale);
                let n = sorted.len();
                if n >= 2 {
                    let idx = n - 2;
                    let v = sorted[idx];
                    if v >= 12 {
                        proof {
                            lemma_octave_down_keeps_pc(v);
                        }
                        sorted.set(idx, v - 12);
                    }
                }
                proof {
                    assert(sorted@ =~= Seq::new(m.len(), |j: int| if j == m.len() - 2
                        && m[j] >= 12 {
                        (m[j] - 12) as u8
                    } else {
                        m[j]
                    }));
                }
                let out = sort_chord(sorted, scale);
                proof {
                    assert forall|j: int| 0 <= j < m.len()
                        implies (#[trigger] sorted@[j] as int) % 12
                            == (m[j] as int) % 12 by {
                        if m[j] >= 12 && j == m.len() - 2 {
                            lemma_octave_down_keeps_pc(m[j]);
                        }
                    }
                    assert forall|pc: int| #[trigger] spec_holds_pc(notes@, pc)
                        implies spec_holds_pc(out@, pc) by {
                        lemma_pc_kept_sorted(notes@, pc);
                        lemma_pc_kept_octave_map(m, sorted@, pc);
                        lemma_pc_kept_multiset(sorted@, out@, pc);
                    }
                }
                out
            },
            Voicing::Spread => {
                // Distribute the chord across two octaves: the upper half
                // of the tones moves up an octave.
                let mut sorted = sort_chord(notes, scale);
                let n = sorted.len();
                let mut i: usize = n / 2;
                while i < n
                    invariant
                        n / 2 <= i <= n,
                        n == sorted@.len(),
                        n == m.len(),
                        forall|j: int| 0 <= j < n ==> #[trigger] sorted@[j]
                            == (if n / 2 <= j < i && m[j] <= 115 {
                                (m[j] + 12) as u8
                            } else {
                                m[j]
                            }),
                        forall|j: int| 0 <= j < sorted@.len()
                            ==> scale@.has_pc(#[trigger] sorted@[j] as int % 12),
                    decreases n - i,
                {
                    let v = sorted[i];
                    if v <= 115 {
                        proof {
                            lemma_octave_up_keeps_pc(v);
                        }
                        sorted.set(i, v + 12);
                    }
                    i = i + 1;
                }
                proof {
                    assert(sorted@ =~= Seq::new(m.len(), |j: int| if j >= m.len() / 2
                        && m[j] <= 115 {
                        (m[j] + 12) as u8
                    } else {
                        m[j]
                    }));
                }
                let out = sort_chord(sorted, scale);
                proof {
                    assert forall|j: int| 0 <= j < m.len()
                        implies (#[trigger] sorted@[j] as int) % 12
                            == (m[j] as int) % 12 by {
                        if m[j] <= 115 && j >= m.len() / 2 {
                            lemma_octave_up_keeps_pc(m[j]);
                        }
                    }
                    assert forall|pc: int| #[trigger] spec_holds_pc(notes@, pc)
                        implies spec_holds_pc(out@, pc) by {
                        lemma_pc_kept_sorted(notes@, pc);
                        lemma_pc_kept_octave_map(m, sorted@, pc);
                        lemma_pc_kept_multiset(sorted@, out@, pc);
                    }
                }
                out
            },
        }
    }

    /// Apply an inversion: Root keeps the chord; Random picks one of the
    /// possible rotations; Ascending cycles through them; VoiceLed picks
    /// the rotation whose tones move least from the previous chord. Every
    /// pitch class is kept in the scale.
    fn apply_inversion(&mut self, notes: Vec<u8>, scale: Ghost<Scale>) -> (r: Vec<u8>)
        requires
            old(self).wf(),
            forall|i: int| 0 <= i < notes@.len()
                ==> scale@.has_pc(#[trigger] notes@[i] as int % 12),
        ensures
            final(self).wf(),
            final(self).spec_config() == old(self).spec_config(),
            final(self).spec_chord() == old(self).spec_chord(),
            final(self).spec_chord_root_pc() == old(self).spec_chord_root_pc(),
            final(self).spec_chord_ivals() == old(self).spec_chord_ivals(),
            final(self).spec_tick_accumulator() == old(self).spec_tick_accumulator(),
            r@.len() == notes@.len(),
            forall|i: int| 0 <= i < r@.len()
                ==> scale@.has_pc(#[trigger] r@[i] as int % 12),
            notes@.len() >= 2 ==> forall|i: int, j: int| 0 <= i < j < r@.len()
                ==> #[trigger] r@[i] <= #[trigger] r@[j],
            notes@.len() < 2 ==> r@ == notes@,
            forall|pc: int| #[trigger] spec_holds_pc(notes@, pc)
                ==> spec_holds_pc(r@, pc),
            // Root keeps the ordered chord; Random and VoiceLed land on
            // some octave-lifted rotation of it; Ascending uses the
            // running inversion and advances it; VoiceLed moves no more
            // from the previous chord than any other rotation.
            notes@.len() >= 2 ==> ({
                let m = spec_note_sorted(notes@);
                let prev = old(self).spec_state().2;
                match old(self).spec_config().inversion_mode {
                    InversionMode::Root => r@ == m,
                    InversionMode::Random => exists|k: int| 0 <= k < m.len()
                        && r@ == spec_note_sorted(#[trigger] spec_lifted(m, k)),
                    InversionMode::Ascending => {
                        &&& old(self).spec_state().4 <= m.len()
                            ==> r@ == spec_note_sorted(spec_lifted(m,
                                old(self).spec_state().4))
                        &&& final(self).spec_state().4 == ({
                            let next = (old(self).spec_state().4 + 1) % m.len() as int;
                            if next <= 255 { next } else { 0int }
                        })
                    },
                    InversionMode::VoiceLed => {
                        if prev.len() == 0 {
                            r@ == m
                        } else {
                            &&& exists|k: int| 0 <= k < m.len()
                                && r@ == spec_note_sorted(#[trigger] spec_lifted(m, k))
                            &&& forall|j: int| 0 <= j < m.len()
                                ==> crate::spec_clamp(spec_movement(r@, prev, 0),
                                    0, u64::MAX as int)
                                    <= crate::spec_clamp(spec_movement(
                                        spec_note_sorted(#[trigger] spec_lifted(m, j)),
                                        prev, 0), 0, u64::MAX as int)
                        }
                    },
                }
            }),
    {
        if notes.len() < 2 {
            return notes;
        }

        let sorted = sort_chord(notes, scale);
        let len = sorted.len();
        let ghost m = spec_note_sorted(notes@);
        let ghost prev = self.spec_state().2;

        let inversion: u64 = match self.config.inversion_mode {
            InversionMode::Root => 0,
            InversionMode::Random => {
                crate::rng::rand_below(&mut self.rng, len as u64)
            },
            InversionMode::Ascending => {
                let inv = self.current_inversion;
                let next = (self.current_inversion as u64 + 1) % len as u64;
                self.current_inversion = if next <= 255 { next as u8 } else { 0 };
                inv as u64
            },
            InversionMode::VoiceLed => {
                // Pick the rotation that moves least from the previous
                // chord.
                if self.previous_chord.len() == 0 {
                    0
                } else {
                    let mut best_inv: u64 = 0;
                    let mut best_movement: u64 = u64::MAX;
                    let mut inv: usize = 0;
                    while inv < len
                        invariant
                            inv <= len,
                            len == sorted@.len(),
                            sorted@ == m,
                            prev == self.spec_state().2,
                            self == old(self),
                            forall|j: int| 0 <= j < sorted@.len()
                                ==> scale@.has_pc(#[trigger] sorted@[j] as int % 12),
                            inv == 0 ==> best_inv == 0 && best_movement == u64::MAX,
                            inv >= 1 ==> {
                                &&& best_inv < inv
                                &&& best_movement as int == crate::spec_clamp(
                                    spec_movement(spec_note_sorted(
                                        spec_lifted(m, best_inv as int)), prev, 0),
                                    0, u64::MAX as int)
                                &&& forall|j: int| 0 <= j < inv
                                    ==> best_movement as int <= crate::spec_clamp(
                                        spec_movement(spec_note_sorted(
                                            #[trigger] spec_lifted(m, j)), prev, 0),
                                        0, u64::MAX as int)
                            },
                        decreases len - inv,
                    {
                        let candidate = invert_chord(&sorted, inv as u64, scale);
                        let movement = self.calculate_movement(&candidate);
                        if movement < best_movement {
                            best_movement = movement;
                            best_inv = inv as u64;
                        }
                        inv = inv + 1;
                    }
                    best_inv
                }
            },
        };

        let out = invert_chord(&sorted, inversion, scale);
        proof {
            lemma_note_sorted_ensures(notes@);
            if inversion == 0 {
                assert(spec_lifted(m, 0) =~= m);
                lemma_note_sorted_is(m, m);
            }
            assert forall|pc: int| #[trigger] spec_holds_pc(notes@, pc)
                implies spec_holds_pc(out@, pc) by {
                lemma_pc_kept_multiset(notes@, sorted@, pc);
            }
        }
        out
    }

    /// Total absolute pitch movement from the previous chord, tone by
    /// tone, saturating at the 64-bit limit.
    fn calculate_movement(&self, notes: &Vec<u8>) -> (r: u64)
        ensures
            r as int == crate::spec_clamp(
                spec_movement(notes@, self.spec_state().2, 0), 0, u64::MAX as int),
    {
        let ghost prev = self.spec_state().2;
        let mut total: u128 = 0;
        let mut i: usize = 0;
        while i < notes.len()
            invariant
                i <= notes@.len(),
                prev == self.spec_state().2,
                total as int + spec_movement(notes@, prev, i as int)
                    == spec_movement(notes@, prev, 0),
                total <= 256 * (i as int),
            decreases notes@.len() - i,
        {
            if i < self.previous_chord.len() {
                let a = notes[i];
                let b = self.previous_chord[i];
                let d = if a >= b { a - b } else { b - a };
                total = total + d as u128;
            }
            proof {
                assert(256 * (i as int + 1) == 256 * (i as int) + 256);
            }
            i = i + 1;
        }
        proof {
            lemma_movement_bounds(notes@, prev, notes@.len() as int);
            lemma_movement_bounds(notes@, prev, 0);
        }
        if total > u64::MAX as u128 {
            u64::MAX
        } else {
            total as u64
        }
    }
}

/// MIDI note of a wrapped 1-based degree: the degree folds into the scale
/// length and overflowing degrees raise the octave.
fn degree_note(scale: &Scale, degree: u32, base_octave: i8, extra_octave: i8)
    -> (r: Option<u8>)
    requires
        degree >= 1,
        -6 <= base_octave <= 8,
        0 <= extra_octave <= 1,
    ensures
        match r {
            Some(n) => scale.has_pc(n as int % 12)
                && scale.spec_len() >= 1
                && (n as int) % 12 == scale.pc_at(
                    (degree - 1) as int % scale.spec_len() as int),
            None => true,
        },
        ({
            let len = scale.spec_len() as int;
            let off = (degree - 1) as int / len;
            &&& scale.spec_len() >= 1
            &&& off <= 10
            &&& -1 <= base_octave + off + extra_octave <= 8
        }) ==> r is Some,
{
    let len = scale.len();
    if len == 0 {
        return None;
    }
    let actual_deg = ((degree - 1) as u64 % len as u64) + 1;
    let octave_offset = (degree - 1) as u64 / len as u64;
    if octave_offset > 10 {
        return None;
    }
    let octave: i64 = base_octave as i64 + octave_offset as i64 + extra_octave as i64;
    if octave < -1 || octave > 9 {
        return None;
    }
    scale.midi_note_at(actual_deg as usize, octave as i8)
}

/// The tones of a list in ascending order.
pub open spec fn spec_note_sorted(s: Seq<u8>) -> Seq<u8> {
    s.sort_by(|a: u8, b: u8| a <= b)
}

/// The list with its bottom `k` tones lifted an octave, each only while
/// it stays in MIDI range.
pub open spec fn spec_lifted(notes: Seq<u8>, k: int) -> Seq<u8> {
    Seq::new(notes.len(), |i: int| if i < k && notes[i] <= 115 {
        (notes[i] + 12) as u8
    } else {
        notes[i]
    })
}

/// The first `k` tones, each lifted an octave while it stays in range.
pub open spec fn spec_lift_front(notes: Seq<u8>, k: int) -> Seq<u8> {
    Seq::new((if k < 0 { 0int } else if k > notes.len() { notes.len() as int } else { k })
        as nat,
        |i: int| if notes[i] <= 115 { (notes[i] + 12) as u8 } else { notes[i] })
}

/// Total absolute pitch difference, tone by tone, from position `i` on;
/// tones past the shorter list move nothing.
pub open spec fn spec_movement(notes: Seq<u8>, prev: Seq<u8>, i: int) -> int
    decreases notes.len() - i,
{
    if i < 0 || i >= notes.len() {
        0
    } else {
        let d = if i < prev.len() {
            if notes[i] >= prev[i] {
                notes[i] - prev[i]
            } else {
                prev[i] - notes[i]
            }
        } else {
            0int
        };
        d + spec_movement(notes, prev, i + 1)
    }
}

/// The movement sum is never negative and each tone moves under 256.
proof fn lemma_movement_bounds(notes: Seq<u8>, prev: Seq<u8>, i: int)
    requires
        0 <= i <= notes.len(),
    ensures
        0 <= spec_movement(notes, prev, i) <= 256 * (notes.len() - i),
    decreases notes.len() - i,
{
    if i < notes.len() {
        lemma_movement_bounds(notes, prev, i + 1);
    }
}

/// Ordering tones by `<=` is a total order.
proof fn lemma_note_leq_total()
    ensures
        vstd::relations::total_ordering(|a: u8, b: u8| a <= b),
{
    let leq = |a: u8, b: u8| a <= b;
    assert(vstd::relations::reflexive(leq)) by {
        assert forall|a: u8| #[trigger] leq(a, a) by {}
    }
    assert(vstd::relations::antisymmetric(leq)) by {
        assert forall|a: u8, b: u8| #[trigger] leq(a, b) && #[trigger] leq(b, a)
            implies a == b by {}
    }
    assert(vstd::relations::transitive(leq)) by {
        assert forall|a: u8, b: u8, c: u8| #[trigger] leq(a, b) && #[trigger] leq(b, c)
            implies leq(a, c) by {}
    }
    assert(vstd::relations::strongly_connected(leq)) by {
        assert forall|a: u8, b: u8| !(#[trigger] leq(a, b)) implies leq(b, a) by {}
    }
}

/// A sorted list with a list's tones is that list's ascending ordering.
proof fn lemma_note_sorted_is(s: Seq<u8>, r: Seq<u8>)
    requires
        r.to_multiset() == s.to_multiset(),
        forall|i: int, j: int| 0 <= i < j < r.len() ==> #[trigger] r[i] <= #[trigger] r[j],
    ensures
        r == spec_note_sorted(s),
{
    let leq = |a: u8, b: u8| a <= b;
    lemma_note_leq_total();
    s.lemma_sort_by_ensures(leq);
    assert(vstd::relations::sorted_by(r, leq)) by {
        assert forall|i: int, j: int| 0 <= i < j < r.len()
            implies #[trigger] leq(r[i], r[j]) by {}
    }
    vstd::seq_lib::lemma_sorted_unique(r, s.sort_by(leq), leq);
    assert(r =~= spec_note_sorted(s));
}

/// The ascending ordering keeps the tones and their number, in order.
proof fn lemma_note_sorted_ensures(s: Seq<u8>)
    ensures
        spec_note_sorted(s).to_multiset() == s.to_multiset(),
        spec_note_sorted(s).len() == s.len(),
        forall|i: int, j: int| 0 <= i < j < spec_note_sorted(s).len()
            ==> #[trigger] spec_note_sorted(s)[i] <= #[trigger] spec_note_sorted(s)[j],
{
    broadcast use vstd::seq_lib::group_to_multiset_ensures;
    let leq = |a: u8, b: u8| a <= b;
    s.lemma_sort_by_ensures(leq);
    assert(spec_note_sorted(s).to_multiset().len() == s.to_multiset().len());
    assert forall|i: int, j: int| 0 <= i < j < spec_note_sorted(s).len()
        implies #[trigger] spec_note_sorted(s)[i] <= #[trigger] spec_note_sorted(s)[j] by {
        assert(leq(spec_note_sorted(s)[i], spec_note_sorted(s)[j]));
    }
}

/// Whether some tone of the list has pitch class `pc`.
pub open spec fn spec_holds_pc(s: Seq<u8>, pc: int) -> bool {
    exists|i: int| 0 <= i < s.len() && (#[trigger] s[i] as int) % 12 == pc
}

/// A pitch class present in a list is present in any reordering of it.
proof fn lemma_pc_kept_multiset(s: Seq<u8>, r: Seq<u8>, pc: int)
    requires
        r.to_multiset() == s.to_multiset(),
        spec_holds_pc(s, pc),
    ensures
        spec_holds_pc(r, pc),
{
    broadcast use vstd::seq_lib::group_to_multiset_ensures;
    let i = choose|i: int| 0 <= i < s.len() && #[trigger] (s[i] as int) % 12 == pc;
    assert(s.to_multiset().contains(s[i]));
    assert(r.to_multiset().contains(s[i]));
    assert(r.contains(s[i]));
    let j = choose|j: int| 0 <= j < r.len() && r[j] == s[i];
    assert((r[j] as int) % 12 == pc);
}

/// A pitch class present in a list survives its ascending ordering.
proof fn lemma_pc_kept_sorted(s: Seq<u8>, pc: int)
    requires
        spec_holds_pc(s, pc),
    ensures
        spec_holds_pc(spec_note_sorted(s), pc),
{
    lemma_note_sorted_ensures(s);
    lemma_pc_kept_multiset(s, spec_note_sorted(s), pc);
}

/// A pitch class present in a list survives any elementwise octave move.
proof fn lemma_pc_kept_octave_map(s: Seq<u8>, r: Seq<u8>, pc: int)
    requires
        r.len() == s.len(),
        forall|i: int| 0 <= i < s.len()
            ==> (#[trigger] r[i] as int) % 12 == (s[i] as int) % 12,
        spec_holds_pc(s, pc),
    ensures
        spec_holds_pc(r, pc),
{
    let i = choose|i: int| 0 <= i < s.len() && #[trigger] (s[i] as int) % 12 == pc;
    assert((r[i] as int) % 12 == pc);
}

/// Inserting anywhere in a note list adds one copy to its multiset.
proof fn lemma_chord_insert_to_multiset(s: Seq<u8>, i: int, a: u8)
    requires
        0 <= i <= s.len(),
    ensures
        s.insert(i, a).to_multiset() == s.to_multiset().insert(a),
{
    broadcast use vstd::seq_lib::group_to_multiset_ensures;

    let t = s.insert(i, a);
    assert(t[i] == a);
    assert(t.remove(i) =~= s);
    assert(t.remove(i).to_multiset() =~= t.to_multiset().remove(a));
    assert(t.to_multiset().contains(a)) by {
        assert(t.contains(a));
    }
    assert(t.to_multiset() =~= s.to_multiset().insert(a));
}

/// Copy a note list.
fn clone_notes(notes: &Vec<u8>) -> (r: Vec<u8>)
    ensures
        r@ == notes@,
{
    let mut r: Vec<u8> = Vec::new();
    let mut i: usize = 0;
    while i < notes.len()
        invariant
            0 <= i <= notes@.len(),
            r@ == notes@.take(i as int),
        decreases notes@.len() - i,
    {
        r.push(notes[i]);
        proof {
            assert(r@ =~= notes@.take(i as int + 1));
        }
        i = i + 1;
    }
    proof {
        assert(notes@.take(notes@.len() as int) =~= notes@);
    }
    r
}

/// Moving a tone up an octave keeps its pitch class.
proof fn lemma_octave_up_keeps_pc(v: u8)
    requires
        v <= 115,
    ensures
        (v + 12) as int % 12 == v as int % 12,
{
    vstd::arithmetic::div_mod::lemma_mod_add_multiples_vanish(v as int, 12);
}

/// Moving a tone down an octave keeps its pitch class.
proof fn lemma_octave_down_keeps_pc(v: u8)
    requires
        v >= 12,
    ensures
        (v - 12) as int % 12 == v as int % 12,
{
    vstd::arithmetic::div_mod::lemma_mod_add_multiples_vanish(v as int - 12, 12);
}

/// Insertion sort of chord tones, ascending, keeping scale membership.
fn sort_chord(notes: Vec<u8>, scale: Ghost<Scale>) -> (r: Vec<u8>)
    requires
        forall|i: int| 0 <= i < notes@.len()
            ==> scale@.has_pc(#[trigger] notes@[i] as int % 12),
    ensures
        r@.len() == notes@.len(),
        r@ == spec_note_sorted(notes@),
        r@.to_multiset() == notes@.to_multiset(),
        forall|i: int, j: int| 0 <= i < j < r@.len() ==> #[trigger] r@[i] <= #[trigger] r@[j],
        forall|i: int| 0 <= i < r@.len() ==> scale@.has_pc(#[trigger] r@[i] as int % 12),
{
    let mut sorted: Vec<u8> = Vec::new();
    proof {
        broadcast use vstd::seq_lib::group_to_multiset_ensures;
        assert(notes@.take(0) =~= Seq::<u8>::empty());
        assert(sorted@.to_multiset() =~= notes@.take(0).to_multiset());
    }
    let mut i: usize = 0;
    while i < notes.len()
        invariant
            0 <= i <= notes@.len(),
            sorted@.len() == i,
            sorted@.to_multiset() == notes@.take(i as int).to_multiset(),
            forall|a: int, b: int| 0 <= a < b < sorted@.len()
                ==> #[trigger] sorted@[a] <= #[trigger] sorted@[b],
            forall|a: int| 0 <= a < sorted@.len()
                ==> scale@.has_pc(#[trigger] sorted@[a] as int % 12),
            forall|a: int| 0 <= a < notes@.len()
                ==> scale@.has_pc(#[trigger] notes@[a] as int % 12),
        decreases notes@.len() - i,
    {
        let x = notes[i];
        let mut pos: usize = 0;
        while pos < sorted.len() && sorted[pos] <= x
            invariant
                0 <= pos <= sorted@.len(),
                forall|a: int| 0 <= a < pos ==> #[trigger] sorted@[a] <= x,
            decreases sorted@.len() - pos,
        {
            pos = pos + 1;
        }
        let ghost before = sorted@;
        sorted.insert(pos, x);
        proof {
            broadcast use vstd::seq_lib::group_to_multiset_ensures;
            lemma_chord_insert_to_multiset(before, pos as int, x);
            assert(notes@.take(i as int + 1) =~= notes@.take(i as int).push(x));
            assert forall|a: int, b: int| 0 <= a < b < sorted@.len()
                implies #[trigger] sorted@[a] <= #[trigger] sorted@[b] by {
                if b < pos {
                    assert(sorted@[a] == before[a] && sorted@[b] == before[b]);
                } else if a > pos {
                    assert(sorted@[a] == before[a - 1] && sorted@[b] == before[b - 1]);
                } else if a < pos && b == pos {
                    assert(sorted@[a] == before[a]);
                } else if a == pos {
                    assert(sorted@[b] == before[b - 1]);
                    assert(x < before[pos as int] || pos == before.len());
                } else {
                    assert(sorted@[a] == before[a] && sorted@[b] == before[b - 1]);
                }
            }
            assert forall|a: int| 0 <= a < sorted@.len()
                implies scale@.has_pc(#[trigger] sorted@[a] as int % 12) by {
                if a < pos {
                    assert(sorted@[a] == before[a]);
                } else if a > pos {
                    assert(sorted@[a] == before[a - 1]);
                }
            }
        }
        i = i + 1;
    }
    proof {
        assert(notes@.take(notes@.len() as int) =~= notes@);
        lemma_note_sorted_is(notes@, sorted@);
    }
    sorted
}

/// Invert a chord by moving the bottom `inversion` tones up an octave
/// (each only while it stays in MIDI range), then sorting. Pitch classes
/// stay in the scale.
fn invert_chord(notes: &Vec<u8>, inversion: u64, scale: Ghost<Scale>) -> (r: Vec<u8>)
    requires
        forall|i: int| 0 <= i < notes@.len()
            ==> scale@.has_pc(#[trigger] notes@[i] as int % 12),
    ensures
        r@.len() == notes@.len(),
        forall|i: int, j: int| 0 <= i < j < r@.len() ==> #[trigger] r@[i] <= #[trigger] r@[j],
        forall|i: int| 0 <= i < r@.len() ==> scale@.has_pc(#[trigger] r@[i] as int % 12),
        inversion <= notes@.len()
            ==> r@ == spec_note_sorted(spec_lifted(notes@, inversion as int)),
        forall|pc: int| #[trigger] spec_holds_pc(notes@, pc)
            ==> spec_holds_pc(r@, pc),
{
    let mut result = clone_notes(notes);
    let mut step: u64 = 0;
    proof {
        if inversion <= notes@.len() {
            assert(result@ =~= notes@.skip(0) + spec_lift_front(notes@, 0));
        }
    }
    while step < inversion
        invariant
            result@.len() == notes@.len(),
            step <= inversion,
            forall|i: int| 0 <= i < result@.len()
                ==> scale@.has_pc(#[trigger] result@[i] as int % 12),
            forall|pc: int| #[trigger] spec_holds_pc(notes@, pc)
                ==> spec_holds_pc(result@, pc),
            inversion <= notes@.len() ==> result@
                == notes@.skip(step as int) + spec_lift_front(notes@, step as int),
        decreases inversion - step,
    {
        let ghost pre = result@;
        if result.len() > 0 {
            let bottom = result.remove(0);
            proof {
                assert forall|i: int| 0 <= i < result@.len()
                    implies scale@.has_pc(#[trigger] result@[i] as int % 12) by {
                }
            }
            if bottom <= 115 {
                proof {
                    lemma_octave_up_keeps_pc(bottom);
                }
                result.push(bottom + 12);
            } else {
                result.push(bottom);
            }
        }
        proof {
            if inversion <= notes@.len() {
                assert(pre[0] == notes@[step as int]);
                assert(result@ =~= notes@.skip(step as int + 1)
                    + spec_lift_front(notes@, step as int + 1));
            }
            assert forall|pc: int| #[trigger] spec_holds_pc(notes@, pc)
                implies spec_holds_pc(result@, pc) by {
                assert(spec_holds_pc(pre, pc));
                let i = choose|i: int| 0 <= i < pre.len()
                    && (#[trigger] pre[i] as int) % 12 == pc;
                if pre.len() > 0 {
                    if i == 0 {
                        if pre[0] <= 115 {
                            lemma_octave_up_keeps_pc(pre[0]);
                        }
                        assert((result@[result@.len() - 1] as int) % 12 == pc);
                    } else {
                        assert((result@[i - 1] as int) % 12 == pc);
                    }
                }
            }
        }
        step = step + 1;
    }
    proof {
        if inversion <= notes@.len() {
            broadcast use vstd::seq_lib::group_to_multiset_ensures;
            let front = spec_lift_front(notes@, inversion as int);
            let back = notes@.skip(inversion as int);
            assert(spec_lifted(notes@, inversion as int) =~= front + back);
            vstd::seq_lib::lemma_multiset_commutative(back, front);
            vstd::seq_lib::lemma_multiset_commutative(front, back);
            assert(result@.to_multiset()
                == spec_lifted(notes@, inversion as int).to_multiset());
        }
    }
    let out = sort_chord(result, scale);
    proof {
        if inversion <= notes@.len() {
            lemma_note_sorted_ensures(result@);
            lemma_note_sorted_is(spec_lifted(notes@, inversion as int), out@);
        }
        assert forall|pc: int| #[trigger] spec_holds_pc(notes@, pc)
            implies spec_holds_pc(out@, pc) by {
            lemma_pc_kept_multiset(result@, out@, pc);
        }
    }
    out
}

} // verus!
