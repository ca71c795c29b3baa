//! Melodic generator using Markov-style interval choices and motif
//! development.
//!
//! Generates melodies based on interval probabilities, rhythmic templates,
//! and motif transformations (repeat, transpose, invert, retrograde).
//! Notes are always taken from the context's scale by degree, so every
//! emitted note is a scale tone of the key.

use vstd::prelude::*;

use crate::generators::{GeneratorContext, MidiEvent, events_in_scale};

verus! {

/// Motif transformation types
#[derive(Debug, Clone, Copy, PartialEq, Eq, Structural)]
pub enum MotifTransform {
    /// Play as-is
    Original,
    /// Repeat the motif
    Repeat,
    /// Transpose up/down by scale degrees
    Transpose(i8),
    /// Invert intervals (up becomes down)
    Invert,
    /// Play backwards
    Retrograde,
    /// Invert and play backwards
    RetroInvert,
}

/// A musical motif (short melodic fragment)
#[derive(Debug, Clone, PartialEq)]
pub struct Motif {
    /// Intervals from the previous note (in scale degrees)
    pub intervals: Vec<i8>,
    /// Rhythm as note divisions (4 = quarter, 8 = eighth, and so on)
    pub rhythm: Vec<u32>,
}

impl Motif {
    /// Create a motif from intervals and rhythm.
    pub fn new(intervals: Vec<i8>, rhythm: Vec<u32>) -> (r: Self)
        ensures
            r.intervals@ == intervals@,
            r.rhythm@ == rhythm@,
    {
        Self { intervals, rhythm }
    }

    /// Transform the motif: Original and Repeat keep it, Transpose shifts
    /// every interval (saturating at the 8-bit limits), Invert negates
    /// them, Retrograde reverses both lists, and RetroInvert does both.
    pub fn transform(&self, transform: MotifTransform) -> (r: Self)
        ensures
            match transform {
                MotifTransform::Original | MotifTransform::Repeat => {
                    &&& r.intervals@ == self.intervals@
                    &&& r.rhythm@ == self.rhythm@
                },
                MotifTransform::Transpose(offset) => {
                    &&& r.intervals@.len() == self.intervals@.len()
                    &&& forall|i: int| 0 <= i < r.intervals@.len()
                        ==> #[trigger] r.intervals@[i] == crate::spec_clamp(
                            self.intervals@[i] + offset, i8::MIN as int, i8::MAX as int)
                    &&& r.rhythm@ == self.rhythm@
                },
                MotifTransform::Invert => {
                    &&& r.intervals@.len() == self.intervals@.len()
                    &&& forall|i: int| 0 <= i < r.intervals@.len()
                        ==> #[trigger] r.intervals@[i] == crate::spec_clamp(
                            -(self.intervals@[i] as int), i8::MIN as int, i8::MAX as int)
                    &&& r.rhythm@ == self.rhythm@
                },
                MotifTransform::Retrograde => {
                    &&& r.intervals@ == self.intervals@.reverse()
                    &&& r.rhythm@ == self.rhythm@.reverse()
                },
                MotifTransform::RetroInvert => {
                    &&& r.intervals@.len() == self.intervals@.len()
                    &&& forall|i: int| 0 <= i < r.intervals@.len()
                        ==> #[trigger] r.intervals@[i] == crate::spec_clamp(
                            -(self.intervals@.reverse()[i] as int),
                            i8::MIN as int, i8::MAX as int)
                    &&& r.rhythm@ == self.rhythm@.reverse()
                },
            },
    {
        match transform {
            MotifTransform::Original | MotifTransform::Repeat => {
                Motif { intervals: copy_i8(&self.intervals), rhythm: copy_u32(&self.rhythm) }
            },
            MotifTransform::Transpose(offset) => {
                let n = self.intervals.len();
                let mut intervals: Vec<i8> = Vec::new();
                let mut i: usize = 0;
                while i < n
                    invariant
                        0 <= i <= n,
                        n == self.intervals@.len(),
                        intervals@.len() == i,
                        forall|j: int| 0 <= j < i
                            ==> #[trigger] intervals@[j] == crate::spec_clamp(
                                self.intervals@[j] + offset, i8::MIN as int, i8::MAX as int),
                    decreases n - i,
                {
                    let sum: i16 = self.intervals[i] as i16 + offset as i16;
                    let v = crate::clamp_i16(sum, i8::MIN as i16, i8::MAX as i16) as i8;
                    intervals.push(v);
                    i = i + 1;
                }
                Motif { intervals, rhythm: copy_u32(&self.rhythm) }
            },
            MotifTransform::Invert => {
                let n = self.intervals.len();
                let mut intervals: Vec<i8> = Vec::new();
                let mut i: usize = 0;
                while i < n
                    invariant
                        0 <= i <= n,
                        n == self.intervals@.len(),
                        intervals@.len() == i,
                        forall|j: int| 0 <= j < i
                            ==> #[trigger] intervals@[j] == crate::spec_clamp(
                                -(self.intervals@[j] as int), i8::MIN as int, i8::MAX as int),
                    decreases n - i,
                {
                    let neg: i16 = -(self.intervals[i] as i16);
                    let v = crate::clamp_i16(neg, i8::MIN as i16, i8::MAX as i16) as i8;
                    intervals.push(v);
                    i = i + 1;
                }
                Motif { intervals, rhythm: copy_u32(&self.rhythm) }
            },
            MotifTransform::Retrograde => {
                Motif {
                    intervals: reverse_i8(&self.intervals),
                    rhythm: reverse_u32(&self.rhythm),
                }
            },
            MotifTransform::RetroInvert => {
                let rev = reverse_i8(&self.intervals);
                let n = rev.len();
                let mut intervals: Vec<i8> = Vec::new();
                let mut i: usize = 0;
                while i < n
                    invariant
                        0 <= i <= n,
                        n == rev@.len(),
                        rev@ == self.intervals@.reverse(),
                        intervals@.len() == i,
                        forall|j: int| 0 <= j < i
                            ==> #[trigger] intervals@[j] == crate::spec_clamp(
                                -(rev@[j] as int), i8::MIN as int, i8::MAX as int),
                    decreases n - i,
                {
                    let neg: i16 = -(rev[i] as i16);
                    let v = crate::clamp_i16(neg, i8::MIN as i16, i8::MAX as i16) as i8;
                    intervals.push(v);
                    i = i + 1;
                }
                Motif { intervals, rhythm: reverse_u32(&self.rhythm) }
            },
        }
    }
}

/// Copy a signed interval list.
fn copy_i8(v: &Vec<i8>) -> (r: Vec<i8>)
    ensures
        r@ == v@,
{
    let mut r: Vec<i8> = Vec::new();
    let mut i: usize = 0;
    while i < v.len()
        invariant
            0 <= i <= v@.len(),
            r@ == v@.take(i as int),
        decreases v@.len() - i,
    {
        r.push(v[i]);
        proof {
            assert(r@ =~= v@.take(i as int + 1));
        }
        i = i + 1;
    }
    proof {
        assert(v@.take(v@.len() as int) =~= v@);
    }
    r
}

/// Copy a rhythm list.
fn copy_u32(v: &Vec<u32>) -> (r: Vec<u32>)
    ensures
        r@ == v@,
{
    let mut r: Vec<u32> = Vec::new();
    let mut i: usize = 0;
    while i < v.len()
        invariant
            0 <= i <= v@.len(),
            r@ == v@.take(i as int),
        decreases v@.len() - i,
    {
        r.push(v[i]);
        proof {
            assert(r@ =~= v@.take(i as int + 1));
        }
        i = i + 1;
    }
    proof {
        assert(v@.take(v@.len() as int) =~= v@);
    }
    r
}

/// Reverse a signed interval list.
fn reverse_i8(v: &Vec<i8>) -> (r: Vec<i8>)
    ensures
        r@ == v@.reverse(),
{
    let n = v.len();
    let mut r: Vec<i8> = Vec::new();
    let mut i: usize = 0;
    while i < n
        invariant
            0 <= i <= n,
            n == v@.len(),
            r@.len() == i,
            forall|j: int| 0 <= j < i ==> #[trigger] r@[j] == v@[n - 1 - j],
        decreases n - i,
    {
        r.push(v[n - 1 - i]);
        i = i + 1;
    }
    proof {
        assert(r@ =~= v@.reverse());
    }
    r
}

/// Reverse a rhythm list.
fn reverse_u32(v: &Vec<u32>) -> (r: Vec<u32>)
    ensures
        r@ == v@.reverse(),
{
    let n = v.len();
    let mut r: Vec<u32> = Vec::new();
    let mut i: usize = 0;
    while i < n
        invariant
            0 <= i <= n,
            n == v@.len(),
            r@.len() == i,
            forall|j: int| 0 <= j < i ==> #[trigger] r@[j] == v@[n - 1 - j],
        decreases n - i,
    {
        r.push(v[n - 1 - i]);
        i = i + 1;
    }
    proof {
        assert(r@ =~= v@.reverse());
    }
    r
}

/// Configuration for the melody generator. Probabilities and the sounding-length
/// fraction are in thousandths.
#[derive(Debug, Clone, Copy, PartialEq, Eq, Structural)]
pub struct MelodyConfig {
    /// Base octave (1..=7)
    pub base_octave: i8,
    /// Octave range the line may span (1..=4)
    pub octave_range: u8,
    /// Base velocity (1..=127)
    pub velocity: u8,
    /// Velocity variation (0..=64)
    pub velocity_variation: u8,
    /// Note rate as division (1..=32)
    pub base_rate: u32,
    /// Gate portion of the note length, in thousandths (100..=1000)
    pub gate_permille: u16,
    /// Probability of stepwise motion, in thousandths (0..=1000)
    pub step_permille: u16,
    /// Probability of repeating a note, in thousandths (0..=1000)
    pub repeat_permille: u16,
    /// Probability of a rest, in thousandths (0..=500)
    pub rest_permille: u16,
    /// Maximum interval jump in scale degrees (1..=7)
    pub max_jump: u8,
    /// Use motif development
    pub use_motifs: bool,
    /// Motif length in notes (2..=8)
    pub motif_length: u8,
    /// Rhythmic complexity, in thousandths (0..=1000)
    pub complexity_permille: u16,
}

impl MelodyConfig {
    /// All numeric fields inside their documented ranges.
    pub open spec fn wf(self) -> bool {
        &&& 1 <= self.base_octave <= 7
        &&& 1 <= self.octave_range <= 4
        &&& 1 <= self.velocity <= 127
        &&& self.velocity_variation <= 64
        &&& 1 <= self.base_rate <= 32
        &&& 100 <= self.gate_permille <= 1000
        &&& self.step_permille <= 1000
        &&& self.repeat_permille <= 1000
        &&& self.rest_permille <= 500
        &&& 1 <= self.max_jump <= 7
        &&& 2 <= self.motif_length <= 8
        &&& self.complexity_permille <= 1000
    }

    /// The configuration with every field forced into its range.
    pub open spec fn spec_clamped(self) -> MelodyConfig {
        MelodyConfig {
            base_octave: crate::spec_clamp(self.base_octave as int, 1, 7) as i8,
            octave_range: crate::spec_clamp(self.octave_range as int, 1, 4) as u8,
            velocity: crate::spec_clamp(self.velocity as int, 1, 127) as u8,
            velocity_variation: crate::spec_clamp(self.velocity_variation as int, 0, 64) as u8,
            base_rate: crate::spec_clamp(self.base_rate as int, 1, 32) as u32,
            gate_permille: crate::spec_clamp(self.gate_permille as int, 100, 1000) as u16,
            step_permille: crate::spec_clamp(self.step_permille as int, 0, 1000) as u16,
            repeat_permille: crate::spec_clamp(self.repeat_permille as int, 0, 1000) as u16,
            rest_permille: crate::spec_clamp(self.rest_permille as int, 0, 500) as u16,
            max_jump: crate::spec_clamp(self.max_jump as int, 1, 7) as u8,
            use_motifs: self.use_motifs,
            motif_length: crate::spec_clamp(self.motif_length as int, 2, 8) as u8,
            complexity_permille: crate::spec_clamp(self.complexity_permille as int, 0, 1000) as u16,
        }
    }

    /// The configuration with every field forced into its range.
    pub fn clamped(self) -> (r: Self)
        ensures
            r == self.spec_clamped(),
            r.wf(),
    {
        MelodyConfig {
            base_octave: crate::clamp_i8(self.base_octave, 1, 7),
            octave_range: crate::clamp_u8(self.octave_range, 1, 4),
            velocity: crate::clamp_u8(self.velocity, 1, 127),
            velocity_variation: crate::clamp_u8(self.velocity_variation, 0, 64),
            base_rate: crate::clamp_u32(self.base_rate, 1, 32),
            gate_permille: crate::clamp_u16(self.gate_permille, 100, 1000),
            step_permille: crate::clamp_u16(self.step_permille, 0, 1000),
            repeat_permille: crate::clamp_u16(self.repeat_permille, 0, 1000),
            rest_permille: crate::clamp_u16(self.rest_permille, 0, 500),
            max_jump: crate::clamp_u8(self.max_jump, 1, 7),
            use_motifs: self.use_motifs,
            motif_length: crate::clamp_u8(self.motif_length, 2, 8),
            complexity_permille: crate::clamp_u16(self.complexity_permille, 0, 1000),
        }
    }

    /// The default configuration: motif-driven eighth notes around octave
    /// four, preferring stepwise motion with occasional rests.
    pub open spec fn is_default(self) -> bool {
        self == MelodyConfig {
            base_octave: 4,
            octave_range: 2,
            velocity: 100,
            velocity_variation: 15,
            base_rate: 8,
            gate_permille: 850,
            step_permille: 700,
            repeat_permille: 100,
            rest_permille: 150,
            max_jump: 4,
            use_motifs: true,
            motif_length: 4,
            complexity_permille: 500,
        }
    }
}

impl Default for MelodyConfig {
    /// See `MelodyConfig::is_default`.
    fn default() -> (r: Self)
        ensures
            r.is_default(),
            r.wf(),
    {
        Self {
            base_octave: 4,
            octave_range: 2,
            velocity: 100,
            velocity_variation: 15,
            base_rate: 8,  // Eighth notes
            gate_permille: 850,
            step_permille: 700,
            repeat_permille: 100,
            rest_permille: 150,
            max_jump: 4,
            use_motifs: true,
            motif_length: 4,
            complexity_permille: 500,
        }
    }
}

/// Melody generator
pub struct MelodyGenerator {
    config: MelodyConfig,
    /// Current note (MIDI)
    current_note: Option<u8>,
    /// Current scale degree (1-based)
    current_degree: u8,
    /// Current motif being developed
    current_motif: Option<Motif>,
    /// Position in current motif
    motif_position: usize,
    /// How many times the motif has been played
    motif_repetitions: u8,
    /// Tick accumulator
    tick_accumulator: u64,
    rng: rand::rngs::StdRng,
}

/// Every degree the melody can reach sounds: the scale is nonempty and
/// the highest reachable octave stays inside the MIDI range.
pub open spec fn spec_melody_total(config: MelodyConfig, scale: crate::music::scale::Scale)
    -> bool {
    &&& scale.spec_len() >= 1
    &&& 0 <= config.base_octave
    &&& config.base_octave + config.octave_range <= 8
}

impl MelodyGenerator {
    /// The configuration.
    pub closed spec fn spec_config(self) -> MelodyConfig {
        self.config
    }

    /// The mutable playing state apart from the random source: current
    /// note, degree, motif presence, motif position and repetitions, and
    /// accumulated ticks.
    pub closed spec fn spec_state(self) -> (Option<u8>, int, bool, int, int, int) {
        (
            self.current_note,
            self.current_degree as int,
            self.current_motif is Some,
            self.motif_position as int,
            self.motif_repetitions as int,
            self.tick_accumulator as int,
        )
    }

    /// The state a freshly created generator starts in.
    pub open spec fn spec_fresh_state() -> (Option<u8>, int, bool, int, int, int) {
        (None, 1, false, 0, 0, 0)
    }

    /// Configuration in range.
    pub open spec fn wf(self) -> bool {
        self.spec_config().wf()
    }

    /// Create a new melody generator
    pub fn new() -> (r: Self)
        ensures
            r.wf(),
            r.spec_config().is_default(),
            r.spec_state() == MelodyGenerator::spec_fresh_state(),
    {
        Self {
            config: MelodyConfig::default(),
            current_note: None,
            current_degree: 1,
            current_motif: None,
            motif_position: 0,
            motif_repetitions: 0,
            tick_accumulator: 0,
            rng: crate::rng::fresh_rng(),
        }
    }

    /// The generator's name.
    pub fn name(&self) -> (r: &'static str)
        ensures
            r@ == "melody"@,
    {
        "melody"
    }

    /// The current configuration.
    pub fn config(&self) -> (r: &MelodyConfig)
        ensures
            *r == self.spec_config(),
    {
        &self.config
    }

    /// Replace the configuration; every field is forced into its range.
    pub fn set_config(&mut self, config: MelodyConfig)
        requires
            old(self).wf(),
        ensures
            final(self).wf(),
            final(self).spec_config() == config.spec_clamped(),
            final(self).spec_state() == old(self).spec_state(),
    {
        self.config = config.clamped();
    }

    /// Reset the generator: the line starts over from the first degree
    /// with a fresh motif. The configuration is kept.
    pub fn reset(&mut self)
        requires
            old(self).wf(),
        ensures
            final(self).wf(),
            final(self).spec_config() == old(self).spec_config(),
            final(self).spec_state() == MelodyGenerator::spec_fresh_state(),
    {
        self.current_note = None;
        self.current_degree = 1;
        self.current_motif = None;
        self.motif_position = 0;
        self.motif_repetitions = 0;
        self.tick_accumulator = 0;
    }

    /// A random velocity within the configured variation, clamped into
    /// 1..=127.
    fn random_velocity(&mut self) -> (r: u8)
        requires
            old(self).wf(),
        ensures
            final(self).wf(),
            final(self).spec_config() == old(self).spec_config(),
            final(self).spec_state() == old(self).spec_state(),
            1 <= r <= 127,
    {
        let base = self.config.velocity as i32;
        let var = self.config.velocity_variation as i32;
        let offset = crate::rng::rand_between_i32(&mut self.rng, -var, var);
        crate::clamp_i32(base + offset, 1, 127) as u8
    }

    /// Choose the next interval in scale degrees: a repeat with the repeat
    /// probability, a step of one with the step probability, else a jump
    /// within the configured maximum.
    fn choose_interval(&mut self) -> (r: i8)
        requires
            old(self).wf(),
        ensures
            final(self).wf(),
            final(self).spec_config() == old(self).spec_config(),
            final(self).spec_state() == old(self).spec_state(),
            -7 <= r <= 7,
    {
        let repeat_roll = crate::rng::rand_permille(&mut self.rng);
        if (repeat_roll as u16) < self.config.repeat_permille {
            return 0;
        }

        let step_roll = crate::rng::rand_permille(&mut self.rng);
        if (step_roll as u16) < self.config.step_permille {
            // Stepwise motion
            if crate::rng::rand_bool(&mut self.rng) {
                1
            } else {
                -1
            }
        } else {
            // A wider jump within the configured bound
            let jump = self.config.max_jump as i32;
            let interval = crate::rng::rand_between_i32(&mut self.rng, -jump, jump);
            interval as i8
        }
    }

    /// MIDI note for a 1-based running degree: the degree wraps by the
    /// scale length into an octave offset. `None` off the MIDI range or
    /// for an empty scale; `Some` notes are always scale tones.
    fn note_for_degree(&self, degree: u8, context: &GeneratorContext) -> (r: Option<u8>)
        ensures
            match r {
                Some(n) => context.key.spec_scale().has_pc(n as int % 12),
                None => true,
            },
            ({
                let len = context.key.spec_scale().spec_len() as int;
                let capped = if len > 56 { 56int } else { len };
                spec_melody_total(self.spec_config(), context.key.spec_scale())
                    && 1 <= degree
                    && degree <= 1 + self.spec_config().octave_range * capped
            }) ==> r is Some,
    {
        proof {
            let len = context.key.spec_scale().spec_len() as int;
            let capped = if len > 56 { 56int } else { len };
            let range = self.spec_config().octave_range as int;
            if spec_melody_total(self.spec_config(), context.key.spec_scale())
                && 1 <= degree && degree <= 1 + range * capped {
                vstd::arithmetic::mul::lemma_mul_nonnegative(range, capped);
                vstd::arithmetic::mul::lemma_mul_is_commutative(range, capped);
                if len > 56 {
                    vstd::arithmetic::mul::lemma_mul_inequality(capped, len, range);
                }
                vstd::arithmetic::mul::lemma_mul_is_commutative(range, len);
                assert(degree - 1 <= range * len);
                vstd::arithmetic::div_mod::lemma_div_is_ordered(
                    degree - 1, range * len, len);
                vstd::arithmetic::div_mod::lemma_div_by_multiple(range, len);
                assert((degree - 1) / len <= range);
            }
        }
        let scale = context.key.scale();
        let scale_len = scale.len();
        if scale_len == 0 {
            return None;
        }

        let d = if degree == 0 { 1u64 } else { degree as u64 };
        let actual_degree = ((d - 1) % scale_len as u64) + 1;
        let octave_offset = (d - 1) / scale_len as u64;
        proof {
            let len = context.key.spec_scale().spec_len() as int;
            let capped = if len > 56 { 56int } else { len };
            let range = self.spec_config().octave_range as int;
            if spec_melody_total(self.spec_config(), context.key.spec_scale())
                && 1 <= degree && degree <= 1 + range * capped {
                assert(d == degree);
                assert(scale_len as int == len);
                assert(octave_offset as int == (degree - 1) as int / len);
                assert(range <= 8);
                assert(octave_offset <= 8);
            }
        }
        if octave_offset > 9 {
            return None;
        }

        let octave: i32 = self.config.base_octave as i32 + octave_offset as i32;
        if octave < 0 || octave > 9 {
            return None;
        }

        scale.midi_note_at(actual_degree as usize, octave as i8)
    }

    /// Move the running degree by an interval, clamping it into the range
    /// the configured octaves span.
    fn move_by_interval(&mut self, interval: i8, context: &GeneratorContext)
        requires
            old(self).wf(),
        ensures
            final(self).wf(),
            final(self).spec_config() == old(self).spec_config(),
            1 <= final(self).spec_state().1 <= 225,
            ({
                let len = context.key.spec_scale().spec_len() as int;
                let capped = if len > 56 { 56int } else { len };
                final(self).spec_state().1
                    <= 1 + final(self).spec_config().octave_range * capped
            }),
    {
        let scale = context.key.scale();
        let scale_len: i32 = if scale.len() > 56 { 56 } else { scale.len() as i32 };

        let new_degree: i32 = self.current_degree as i32 + interval as i32;

        // Keep within the configured octave range
        proof {
            vstd::arithmetic::mul::lemma_mul_nonnegative(
                self.config.octave_range as int, scale_len as int);
            vstd::arithmetic::mul::lemma_mul_upper_bound(
                self.config.octave_range as int, 4, scale_len as int, 56);
        }
        let max_degree: i32 = 1 + self.config.octave_range as i32 * scale_len;
        self.current_degree = crate::clamp_i32(new_degree, 1, max_degree) as u8;
    }

    /// Generate a fresh motif: the first interval is zero, later ones are
    /// chosen like free intervals; each slot's rhythm is the base rate or,
    /// with the configured complexity, a neighboring rate.
    fn generate_motif(&mut self) -> (r: Motif)
        requires
            old(self).wf(),
        ensures
            final(self).wf(),
            final(self).spec_config() == old(self).spec_config(),
            r.intervals@.len() == old(self).spec_config().motif_length,
            r.rhythm@.len() == old(self).spec_config().motif_length,
            forall|i: int| 0 <= i < r.rhythm@.len() ==> 1 <= #[trigger] r.rhythm@[i] <= 64,
    {
        let mut intervals: Vec<i8> = Vec::new();
        let mut rhythm: Vec<u32> = Vec::new();

        let length = self.config.motif_length;
        let base_rate = self.config.base_rate;

        let mut i: u8 = 0;
        while i < length
            invariant
                0 <= i <= length,
                self.wf(),
                self.spec_config() == old(self).spec_config(),
                length == self.spec_config().motif_length,
                base_rate == self.spec_config().base_rate,
                intervals@.len() == i,
                rhythm@.len() == i,
                forall|j: int| 0 <= j < rhythm@.len() ==> 1 <= #[trigger] rhythm@[j] <= 64,
            decreases length - i,
        {
            if i == 0 {
                intervals.push(0);  // First note is the reference
            } else {
                let iv = self.choose_interval();
                intervals.push(iv);
            }

            // Vary the rhythm with the configured complexity
            let roll = crate::rng::rand_permille(&mut self.rng);
            let div = if (roll as u16) < self.config.complexity_permille {
                let which = crate::rng::rand_below(&mut self.rng, 3);
                if which == 0 {
                    base_rate
                } else if which == 1 {
                    base_rate * 2
                } else {
                    let half = base_rate / 2;
                    if half == 0 { 1 } else { half }
                }
            } else {
                base_rate
            };
            rhythm.push(div);
            i = i + 1;
        }

        Motif::new(intervals, rhythm)
    }

    /// Choose a motif transformation by a weighted roll.
    fn choose_transform(&mut self) -> (r: MotifTransform)
        requires
            old(self).wf(),
        ensures
            final(self).wf(),
            final(self).spec_config() == old(self).spec_config(),
            final(self).spec_state() == old(self).spec_state(),
    {
        let roll = crate::rng::rand_permille(&mut self.rng);
        if roll < 300 {
            MotifTransform::Original
        } else if roll < 500 {
            MotifTransform::Repeat
        } else if roll < 700 {
            let offset = crate::rng::rand_between_i32(&mut self.rng, -3, 3);
            MotifTransform::Transpose(offset as i8)
        } else if roll < 850 {
            MotifTransform::Invert
        } else if roll < 950 {
            MotifTransform::Retrograde
        } else {
            MotifTransform::RetroInvert
        }
    }

    /// Generate events for one window: slots advance by the motif's (or
    /// the base) rhythm; each slot may rest, else the line moves by the
    /// next interval and sounds the note of the new degree. Every emitted
    /// note is a scale tone of the context's key and starts inside the
    /// window.
    pub fn generate(&mut self, context: &GeneratorContext) -> (r: Vec<MidiEvent>)
        requires
            old(self).wf(),
            context.wf(),
        ensures
            final(self).wf(),
            final(self).spec_config() == old(self).spec_config(),
            events_in_scale(r@, context.key),
            forall|i: int| 0 <= i < r@.len()
                ==> (#[trigger] r@[i]).start_tick < context.ticks_to_generate
                    && 1 <= r@[i].velocity <= 127,
            // Without rests or motifs, and with every reachable degree
            // sounding, exactly one note starts on each rhythm slot.
            ({
                let cfg = old(self).spec_config();
                cfg.rest_permille == 0 && !cfg.use_motifs
                    && spec_melody_total(cfg, context.key.spec_scale())
            }) ==> ({
                let cfg = old(self).spec_config();
                let d0 = (context.ppqn as int * 4) / cfg.base_rate as int;
                let d = if d0 == 0 { 1int } else { d0 };
                &&& r@.len() == (context.ticks_to_generate + d - 1) / d
                &&& forall|i: int| 0 <= i < r@.len()
                    ==> (#[trigger] r@[i]).start_tick == i * d
            }),
    {
        let mut events: Vec<MidiEvent> = Vec::new();
        let ghost deterministic = old(self).spec_config().rest_permille == 0
            && !old(self).spec_config().use_motifs
            && spec_melody_total(old(self).spec_config(), context.key.spec_scale());

        // Start the line on the first degree when it has not sounded yet.
        if self.current_note.is_none() {
            self.current_degree = 1;
            match self.note_for_degree(1, context) {
                Some(note) => {
                    self.current_note = Some(note);
                },
                None => {},
            }
        }

        let base_duration_raw = context.note_duration(self.config.base_rate);
        let base_duration = if base_duration_raw == 0 { 1 } else { base_duration_raw };

        let ghost d: int = {
            let d0 = (context.ppqn as int * 4)
                / old(self).spec_config().base_rate as int;
            if d0 == 0 { 1int } else { d0 }
        };
        proof {
            if deterministic {
                assert((d - 1) / d == 0) by (nonlinear_arith)
                    requires d >= 1,
                ;
            }
        }
        let mut tick: u64 = 0;
        while tick < context.ticks_to_generate
            invariant
                self.wf(),
                self.spec_config() == old(self).spec_config(),
                events_in_scale(events@, context.key),
                forall|i: int| 0 <= i < events@.len()
                    ==> (#[trigger] events@[i]).start_tick < context.ticks_to_generate
                        && 1 <= events@[i].velocity <= 127,
                tick <= context.ticks_to_generate,
                deterministic ==> d >= 1 && base_duration == d,
                deterministic && tick < context.ticks_to_generate
                    ==> tick as int == events@.len() * d,
                deterministic && tick == context.ticks_to_generate
                    ==> events@.len()
                        == (context.ticks_to_generate as int + d - 1) / d,
                deterministic ==> forall|i: int| 0 <= i < events@.len()
                    ==> (#[trigger] events@[i]).start_tick == i * d,
            decreases context.ticks_to_generate - tick,
        {
            let ghost len0 = events@.len() as int;
            let ghost tick0 = tick as int;
            // Check for a rest
            let rest_roll = crate::rng::rand_permille(&mut self.rng);
            if (rest_roll as u16) < self.config.rest_permille {
                tick = if tick <= u64::MAX - base_duration
                    && tick + base_duration <= context.ticks_to_generate {
                    tick + base_duration
                } else {
                    context.ticks_to_generate
                };
                continue;
            }

            // Determine interval and duration
            let use_motifs = self.config.use_motifs;
            let (interval, duration) = if use_motifs {
                // Motif-based generation
                let need_new = match &self.current_motif {
                    Some(_) => self.motif_position >= self.config.motif_length as usize,
                    None => true,
                };
                if need_new {
                    let start_fresh = match &self.current_motif {
                        Some(_) => self.motif_repetitions >= 3,
                        None => true,
                    };
                    if start_fresh {
                        let m = self.generate_motif();
                        self.current_motif = Some(m);
                        self.motif_repetitions = 0;
                    } else {
                        let transform = self.choose_transform();
                        let transformed = match &self.current_motif {
                            Some(motif) => Some(motif.transform(transform)),
                            None => None,
                        };
                        self.current_motif = transformed;
                        self.motif_repetitions = if self.motif_repetitions < 255 {
                            self.motif_repetitions + 1
                        } else {
                            255
                        };
                    }
                    self.motif_position = 0;
                }

                match &self.current_motif {
                    Some(motif) => {
                        let pos = self.motif_position;
                        let interval = if pos < motif.intervals.len() {
                            motif.intervals[pos]
                        } else {
                            0
                        };
                        let rhythm_div = if pos < motif.rhythm.len() {
                            motif.rhythm[pos]
                        } else {
                            self.config.base_rate
                        };
                        let rhythm_div = if rhythm_div == 0 { 1 } else { rhythm_div };
                        self.motif_position = if pos < usize::MAX { pos + 1 } else { pos };
                        (interval, context.note_duration(rhythm_div))
                    },
                    None => {
                        let iv = self.choose_interval();
                        (iv, base_duration)
                    },
                }
            } else {
                // Free generation
                let iv = self.choose_interval();
                (iv, base_duration)
            };
            let duration = if duration == 0 { 1 } else { duration };

            // Move by the interval
            self.move_by_interval(interval, context);

            // Sound the note of the new degree
            match self.note_for_degree(self.current_degree, context) {
                Some(note) => {
                    self.current_note = Some(note);
                    proof {
                        let d = duration as int;
                        let g = self.spec_config().gate_permille as int;
                        assert(d * g <= d * 1000) by (nonlinear_arith)
                            requires g <= 1000 && d >= 0;
                        vstd::arithmetic::mul::lemma_mul_nonnegative(d, g);
                        vstd::arithmetic::div_mod::lemma_div_is_ordered(d * g, d * 1000, 1000);
                        vstd::arithmetic::div_mod::lemma_div_by_multiple(d, 1000);
                    }
                    let note_length_raw = ((duration as u128
                        * self.config.gate_permille as u128) / 1000) as u64;
                    let note_length = if note_length_raw == 0 { 1 } else { note_length_raw };
                    let velocity = self.random_velocity();
                    events.push(MidiEvent::new(note, velocity, tick, note_length));
                },
                None => {},
            }

            proof {
                if deterministic {
                    let w = context.ticks_to_generate as int;
                    assert(duration == d);
                    assert(events@.len() == len0 + 1);
                    assert((len0 + 1) * d == len0 * d + d) by (nonlinear_arith);
                }
            }
            tick = if tick <= u64::MAX - duration && tick + duration <= context.ticks_to_generate {
                tick + duration
            } else {
                context.ticks_to_generate
            };
            proof {
                if deterministic {
                    let w = context.ticks_to_generate as int;
                    if tick == context.ticks_to_generate {
                        assert((w + d - 1) / d == len0 + 1) by (nonlinear_arith)
                            requires
                                d >= 1,
                                tick0 == len0 * d,
                                len0 >= 0,
                                tick0 < w,
                                w <= tick0 + d,
                        ;
                    }
                }
            }
        }

        proof {
            if deterministic && context.ticks_to_generate == 0 {
                assert((0 + d - 1) / d == 0) by (nonlinear_arith)
                    requires d >= 1,
                ;
            }
        }
        self.tick_accumulator = if self.tick_accumulator
            <= u64::MAX - context.ticks_to_generate {
            self.tick_accumulator + context.ticks_to_generate
        } else {
            u64::MAX
        };
        events
    }
}

} // verus!
