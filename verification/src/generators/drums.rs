//! Drum generator with Euclidean rhythms and style templates.
//!
//! Generates drum patterns using Euclidean rhythm algorithms, style
//! templates, humanization, and fill generation. Voices are held in a
//! fixed list, so the generated events come out in a deterministic order.

use vstd::prelude::*;

use crate::generators::{GeneratorContext, MidiEvent};
use crate::generators::euclid;

verus! {

// Standard General MIDI drum notes
pub const KICK: u8 = 36;
pub const SNARE: u8 = 38;
pub const CLOSED_HAT: u8 = 42;
pub const OPEN_HAT: u8 = 46;
pub const LOW_TOM: u8 = 45;
pub const MID_TOM: u8 = 47;
pub const HIGH_TOM: u8 = 50;
pub const CRASH: u8 = 49;
pub const RIDE: u8 = 51;
pub const CLAP: u8 = 39;
pub const RIM: u8 = 37;
pub const COWBELL: u8 = 56;

/// Drum style presets
#[derive(Debug, Clone, Copy, PartialEq, Eq, Structural)]
pub enum DrumStyle {
    /// Four-on-floor kick, snare on 2 and 4
    FourOnFloor,
    /// Breakbeat style with syncopation
    Breakbeat,
    /// Minimal, sparse pattern
    Sparse,
    /// Busy, dense pattern
    Busy,
    /// Euclidean-based patterns
    Euclidean,
    /// Random/generative
    Random,
}

impl DrumStyle {
    /// The style a small parameter value selects.
    pub open spec fn spec_from_value(v: int) -> DrumStyle {
        if v == 0 { DrumStyle::FourOnFloor }
        else if v == 1 { DrumStyle::Breakbeat }
        else if v == 2 { DrumStyle::Sparse }
        else if v == 3 { DrumStyle::Busy }
        else if v == 4 { DrumStyle::Euclidean }
        else { DrumStyle::Random }
    }

    /// Decode a style from its parameter value.
    pub fn from_value(v: u8) -> (r: Self)
        ensures
            r == DrumStyle::spec_from_value(v as int),
    {
        match v {
            0 => DrumStyle::FourOnFloor,
            1 => DrumStyle::Breakbeat,
            2 => DrumStyle::Sparse,
            3 => DrumStyle::Busy,
            4 => DrumStyle::Euclidean,
            _ => DrumStyle::Random,
        }
    }

    /// Encode a style as its parameter value.
    pub fn to_value(self) -> (r: u8)
        ensures
            DrumStyle::spec_from_value(r as int) == self,
            r <= 5,
    {
        match self {
            DrumStyle::FourOnFloor => 0,
            DrumStyle::Breakbeat => 1,
            DrumStyle::Sparse => 2,
            DrumStyle::Busy => 3,
            DrumStyle::Euclidean => 4,
            DrumStyle::Random => 5,
        }
    }
}

/// Configuration for a single drum instrument. Probabilities are in
/// thousandths.
#[derive(Debug, Clone, PartialEq)]
pub struct DrumVoice {
    /// MIDI note number
    pub note: u8,
    /// Hit pattern (one flag per step)
    pub pattern: Vec<bool>,
    /// Probability of each hit playing (0..=1000)
    pub probability_permille: u16,
    /// Base velocity (1..=127)
    pub velocity: u8,
    /// Accent velocity (1..=127)
    pub accent_velocity: u8,
    /// Accent pattern (positions that get the accent)
    pub accent_pattern: Vec<bool>,
    /// Ghost note positions
    pub ghost_pattern: Vec<bool>,
    /// Ghost note velocity (1..=127)
    pub ghost_velocity: u8,
    /// Enabled
    pub enabled: bool,
}

impl DrumVoice {
    /// Velocities and probability inside their ranges.
    pub open spec fn wf(self) -> bool {
        &&& self.probability_permille <= 1000
        &&& 1 <= self.velocity <= 127
        &&& 1 <= self.accent_velocity <= 127
        &&& 1 <= self.ghost_velocity <= 127
    }

    /// A silent voice for the given note with `steps` empty slots.
    fn new(note: u8, steps: usize) -> (r: Self)
        ensures
            r.wf(),
            r.note == note,
            r.pattern@.len() == steps,
            r.enabled,
            r.probability_permille == 1000,
    {
        Self {
            note,
            pattern: repeat_flags(false, steps),
            probability_permille: 1000,
            velocity: 100,
            accent_velocity: 120,
            accent_pattern: repeat_flags(false, steps),
            ghost_pattern: repeat_flags(false, steps),
            ghost_velocity: 50,
            enabled: true,
        }
    }
}

/// A vector of `n` copies of one flag.
fn repeat_flags(value: bool, n: usize) -> (r: Vec<bool>)
    ensures
        r@.len() == n,
        forall|i: int| 0 <= i < n ==> #[trigger] r@[i] == value,
{
    let mut r: Vec<bool> = Vec::new();
    let mut i: usize = 0;
    while i < n
        invariant
            0 <= i <= n,
            r@.len() == i,
            forall|j: int| 0 <= j < i ==> #[trigger] r@[j] == value,
        decreases n - i,
    {
        r.push(value);
        i = i + 1;
    }
    r
}

/// Configuration for the drum generator. Probabilities are in thousandths.
#[derive(Debug, Clone, Copy, PartialEq, Eq, Structural)]
pub struct DrumConfig {
    /// Style preset
    pub style: DrumStyle,
    /// Steps per bar (1..=64, typically 16)
    pub steps_per_bar: u8,
    /// Humanize velocity variation (0..=30)
    pub humanize_velocity: u8,
    /// Fill probability (0..=1000)
    pub fill_permille: u16,
    /// Fill frequency: a fill may replace the last steps every this many
    /// bars (1..=16)
    pub fill_every_bars: u8,
    /// Euclidean hits for the kick (1..=16)
    pub kick_euclidean_hits: u8,
    /// Euclidean hits for the snare (1..=16)
    pub snare_euclidean_hits: u8,
    /// Euclidean hits for the hats (1..=16)
    pub hat_euclidean_hits: u8,
}

impl DrumConfig {
    /// All numeric fields inside their documented ranges.
    pub open spec fn wf(self) -> bool {
        &&& 1 <= self.steps_per_bar <= 64
        &&& self.humanize_velocity <= 30
        &&& self.fill_permille <= 1000
        &&& 1 <= self.fill_every_bars <= 16
        &&& 1 <= self.kick_euclidean_hits <= 16
        &&& 1 <= self.snare_euclidean_hits <= 16
        &&& 1 <= self.hat_euclidean_hits <= 16
    }

    /// The configuration with every field forced into its range.
    pub open spec fn spec_clamped(self) -> DrumConfig {
        DrumConfig {
            style: self.style,
            steps_per_bar: crate::spec_clamp(self.steps_per_bar as int, 1, 64) as u8,
            humanize_velocity: crate::spec_clamp(self.humanize_velocity as int, 0, 30) as u8,
            fill_permille: crate::spec_clamp(self.fill_permille as int, 0, 1000) as u16,
            fill_every_bars: crate::spec_clamp(self.fill_every_bars as int, 1, 16) as u8,
            kick_euclidean_hits: crate::spec_clamp(self.kick_euclidean_hits as int, 1, 16) as u8,
            snare_euclidean_hits: crate::spec_clamp(self.snare_euclidean_hits as int, 1, 16) as u8,
            hat_euclidean_hits: crate::spec_clamp(self.hat_euclidean_hits as int, 1, 16) as u8,
        }
    }

    /// The configuration with every field forced into its range.
    pub fn clamped(self) -> (r: Self)
        ensures
            r == self.spec_clamped(),
            r.wf(),
    {
        DrumConfig {
            style: self.style,
            steps_per_bar: crate::clamp_u8(self.steps_per_bar, 1, 64),
            humanize_velocity: crate::clamp_u8(self.humanize_velocity, 0, 30),
            fill_permille: crate::clamp_u16(self.fill_permille, 0, 1000),
            fill_every_bars: crate::clamp_u8(self.fill_every_bars, 1, 16),
            kick_euclidean_hits: crate::clamp_u8(self.kick_euclidean_hits, 1, 16),
            snare_euclidean_hits: crate::clamp_u8(self.snare_euclidean_hits, 1, 16),
            hat_euclidean_hits: crate::clamp_u8(self.hat_euclidean_hits, 1, 16),
        }
    }

    /// The default configuration: a four-on-the-floor bar of sixteen
    /// steps, light humanization, and an occasional fill every four bars.
    pub open spec fn is_default(self) -> bool {
        self == DrumConfig {
            style: DrumStyle::FourOnFloor,
            steps_per_bar: 16,
            humanize_velocity: 5,
            fill_permille: 300,
            fill_every_bars: 4,
            kick_euclidean_hits: 4,
            snare_euclidean_hits: 4,
            hat_euclidean_hits: 8,
        }
    }
}

impl Default for DrumConfig {
    /// See `DrumConfig::is_default`.
    fn default() -> (r: Self)
        ensures
            r.is_default(),
            r.wf(),
    {
        Self {
            style: DrumStyle::FourOnFloor,
            steps_per_bar: 16,
            humanize_velocity: 5,
            fill_permille: 300,
            fill_every_bars: 4,
            kick_euclidean_hits: 4,
            snare_euclidean_hits: 4,
            hat_euclidean_hits: 8,
        }
    }
}

/// Drum pattern generator
pub struct DrumGenerator {
    config: DrumConfig,
    /// The voices, in a fixed emission order
    voices: Vec<DrumVoice>,
    /// Current step in the pattern
    current_step: usize,
    /// Current bar for fill tracking
    current_bar: u64,
    /// Tick accumulator
    tick_accumulator: u64,
    /// Whether a fill is being played
    in_fill: bool,
    rng: rand::rngs::StdRng,
}

impl DrumGenerator {
    /// The configuration.
    pub closed spec fn spec_config(self) -> DrumConfig {
        self.config
    }

    /// The voices.
    pub closed spec fn spec_voices(self) -> Seq<DrumVoice> {
        self.voices@
    }

    /// The mutable state apart from the random source and the patterns.
    pub closed spec fn spec_state(self) -> (int, int, int, bool) {
        (
            self.current_step as int,
            self.current_bar as int,
            self.tick_accumulator as int,
            self.in_fill,
        )
    }

    /// The state a freshly created generator starts in.
    pub open spec fn spec_fresh_state() -> (int, int, int, bool) {
        (0, 0, 0, false)
    }

    /// Configuration and every voice inside their ranges.
    pub open spec fn wf(self) -> bool {
        &&& self.spec_config().wf()
        &&& voices_ok(self.spec_voices())
    }

    /// Create a new drum generator with the default four-on-the-floor
    /// pattern.
    pub fn new() -> (r: Self)
        ensures
            r.wf(),
            r.spec_config().is_default(),
            r.spec_state() == DrumGenerator::spec_fresh_state(),
            r.spec_config().style == DrumStyle::FourOnFloor,
            ({
                let steps = r.spec_config().steps_per_bar as int;
                let vs = r.spec_voices();
                &&& vs.len() == 4
                &&& vs[0].note == KICK
                &&& forall|i: int| 0 <= i < steps
                    ==> #[trigger] vs[0].pattern@[i] == (i % 4 == 0)
                &&& vs[1].note == SNARE
                &&& forall|i: int| 0 <= i < steps
                    ==> #[trigger] vs[1].pattern@[i] == (i == 4 || i == 12)
                &&& vs[2].note == CLOSED_HAT
                &&& forall|i: int| 0 <= i < steps
                    ==> #[trigger] vs[2].pattern@[i] == (i % 2 == 0)
                &&& vs[3].note == OPEN_HAT
                &&& forall|i: int| 0 <= i < steps
                    ==> #[trigger] vs[3].pattern@[i] == (i == 7 || i == 15)
            }),
    {
        let mut gen = Self {
            config: DrumConfig::default(),
            voices: Vec::new(),
            current_step: 0,
            current_bar: 0,
            tick_accumulator: 0,
            in_fill: false,
            rng: crate::rng::fresh_rng(),
        };
        gen.build_pattern();
        gen
    }

    /// The generator's name.
    pub fn name(&self) -> (r: &'static str)
        ensures
            r@ == "drums"@,
    {
        "drums"
    }

    /// The current configuration.
    pub fn config(&self) -> (r: &DrumConfig)
        ensures
            *r == self.spec_config(),
    {
        &self.config
    }

    /// Replace the configuration; every field is forced into its range
    /// and the patterns are rebuilt for the new style.
    pub fn set_config(&mut self, config: DrumConfig)
        requires
            old(self).wf(),
        ensures
            final(self).wf(),
            final(self).spec_config() == config.spec_clamped(),
    {
        self.config = config.clamped();
        self.build_pattern();
    }

    /// Reset the step, bar and fill state; the patterns and configuration
    /// are kept.
    pub fn reset(&mut self)
        requires
            old(self).wf(),
        ensures
            final(self).wf(),
            final(self).spec_config() == old(self).spec_config(),
            final(self).spec_state() == DrumGenerator::spec_fresh_state(),
            final(self).spec_voices() == old(self).spec_voices(),
    {
        self.current_step = 0;
        self.current_bar = 0;
        self.tick_accumulator = 0;
        self.in_fill = false;
    }

    /// Build the voice patterns for the current style.
    fn build_pattern(&mut self)
        requires
            old(self).spec_config().wf(),
        ensures
            final(self).wf(),
            final(self).spec_config() == old(self).spec_config(),
            final(self).spec_state() == old(self).spec_state(),
            old(self).spec_config().style == DrumStyle::FourOnFloor ==> ({
                let steps = old(self).spec_config().steps_per_bar as int;
                let vs = final(self).spec_voices();
                &&& vs.len() == 4
                &&& vs[0].note == KICK && vs[0].enabled
                    && vs[0].probability_permille == 1000
                &&& vs[0].pattern@.len() == steps
                &&& forall|i: int| 0 <= i < steps
                    ==> #[trigger] vs[0].pattern@[i] == (i % 4 == 0)
                &&& vs[1].note == SNARE && vs[1].enabled
                    && vs[1].probability_permille == 1000
                &&& vs[1].pattern@.len() == steps
                &&& forall|i: int| 0 <= i < steps
                    ==> #[trigger] vs[1].pattern@[i] == (i == 4 || i == 12)
                &&& vs[2].note == CLOSED_HAT && vs[2].enabled
                    && vs[2].probability_permille == 1000
                &&& vs[2].pattern@.len() == steps
                &&& forall|i: int| 0 <= i < steps
                    ==> #[trigger] vs[2].pattern@[i] == (i % 2 == 0)
                &&& vs[3].note == OPEN_HAT && vs[3].enabled
                    && vs[3].probability_permille == 1000
                &&& vs[3].pattern@.len() == steps
                &&& forall|i: int| 0 <= i < steps
                    ==> #[trigger] vs[3].pattern@[i] == (i == 7 || i == 15)
            }),
    {
        let steps = self.config.steps_per_bar as usize;
        let mut voices: Vec<DrumVoice> = Vec::new();

        match self.config.style {
            DrumStyle::FourOnFloor => {
                let mut kick = DrumVoice::new(KICK, steps);
                kick.pattern = pattern_every(steps, 4);
                kick.accent_pattern = pattern_at(steps, 0, 0);
                let mut snare = DrumVoice::new(SNARE, steps);
                snare.pattern = pattern_at(steps, 4, 12);
                let mut hat = DrumVoice::new(CLOSED_HAT, steps);
                hat.pattern = pattern_every(steps, 2);
                let mut open_hat = DrumVoice::new(OPEN_HAT, steps);
                open_hat.pattern = pattern_at(steps, 7, 15);
                voices.push(kick);
                voices.push(snare);
                voices.push(hat);
                voices.push(open_hat);
            },
            DrumStyle::Breakbeat => {
                let mut kick = DrumVoice::new(KICK, steps);
                kick.pattern = pattern_at3(steps, 0, 6, 10);
                let mut snare = DrumVoice::new(SNARE, steps);
                snare.pattern = pattern_at(steps, 4, 12);
                snare.ghost_pattern = pattern_at(steps, 7, 11);
                snare.ghost_velocity = 45;
                let mut hat = DrumVoice::new(CLOSED_HAT, steps);
                hat.pattern = repeat_flags(true, steps);
                voices.push(kick);
                voices.push(snare);
                voices.push(hat);
            },
            DrumStyle::Sparse => {
                let mut kick = DrumVoice::new(KICK, steps);
                kick.pattern = pattern_at(steps, 0, 10);
                kick.probability_permille = 900;
                let mut snare = DrumVoice::new(SNARE, steps);
                snare.pattern = pattern_at(steps, 4, 12);
                let mut hat = DrumVoice::new(CLOSED_HAT, steps);
                hat.pattern = pattern_every(steps, 4);
                voices.push(kick);
                voices.push(snare);
                voices.push(hat);
            },
            DrumStyle::Busy => {
                let mut kick = DrumVoice::new(KICK, steps);
                kick.pattern = pattern_at5(steps, 0, 3, 6, 10, 14);
                let mut snare = DrumVoice::new(SNARE, steps);
                snare.pattern = pattern_at3(steps, 4, 8, 12);
                let mut hat = DrumVoice::new(CLOSED_HAT, steps);
                hat.pattern = repeat_flags(true, steps);
                let mut rim = DrumVoice::new(RIM, steps);
                rim.pattern = pattern_at3(steps, 2, 7, 15);
                voices.push(kick);
                voices.push(snare);
                voices.push(hat);
                voices.push(rim);
            },
            DrumStyle::Euclidean => {
                let mut kick = DrumVoice::new(KICK, steps);
                kick.pattern = euclid::euclidean(self.config.kick_euclidean_hits as usize, steps);
                let mut snare = DrumVoice::new(SNARE, steps);
                snare.pattern = euclid::euclidean(
                    self.config.snare_euclidean_hits as usize, steps);
                let mut hat = DrumVoice::new(CLOSED_HAT, steps);
                hat.pattern = euclid::euclidean(self.config.hat_euclidean_hits as usize, steps);
                voices.push(kick);
                voices.push(snare);
                voices.push(hat);
            },
            DrumStyle::Random => {
                let mut kick_pattern = random_pattern(&mut self.rng, steps, 250);
                if kick_pattern.len() > 0 {
                    kick_pattern.set(0, true);  // Ensure the downbeat has a kick
                }
                let mut kick = DrumVoice::new(KICK, steps);
                kick.pattern = kick_pattern;
                let mut snare = DrumVoice::new(SNARE, steps);
                snare.pattern = random_pattern(&mut self.rng, steps, 200);
                let mut hat = DrumVoice::new(CLOSED_HAT, steps);
                hat.pattern = random_pattern(&mut self.rng, steps, 500);
                voices.push(kick);
                voices.push(snare);
                voices.push(hat);
            },
        }

        self.voices = voices;
    }

    /// A humanized velocity: the base perturbed within the configured
    /// variation, clamped into 1..=127.
    fn humanize_velocity(&mut self, velocity: u8) -> (r: u8)
        requires
            old(self).wf(),
        ensures
            final(self).wf(),
            final(self).spec_config() == old(self).spec_config(),
            final(self).spec_voices() == old(self).spec_voices(),
            final(self).spec_state() == old(self).spec_state(),
            1 <= r <= 127,
    {
        let var = self.config.humanize_velocity as i32;
        let offset = crate::rng::rand_between_i32(&mut self.rng, -var, var);
        crate::clamp_i32(velocity as i32 + offset, 1, 127) as u8
    }

    /// The tom-sweep fill events for the tail steps of a bar.
    fn generate_fill(&mut self, base_tick: u64, ticks_per_step: u64) -> (r: Vec<MidiEvent>)
        requires
            old(self).wf(),
        ensures
            final(self).wf(),
            final(self).spec_config() == old(self).spec_config(),
            final(self).spec_voices() == old(self).spec_voices(),
            final(self).spec_state() == old(self).spec_state(),
            forall|i: int| 0 <= i < r@.len()
                ==> 1 <= (#[trigger] r@[i]).velocity <= 127
                    && r@[i].start_tick == base_tick,
    {
        let mut events: Vec<MidiEvent> = Vec::new();
        let step = self.current_step;
        // A tom for each tail step, sweeping downward
        let note = if step % 4 == 0 {
            HIGH_TOM
        } else if step % 4 == 1 {
            MID_TOM
        } else if step % 4 == 2 {
            LOW_TOM
        } else {
            KICK
        };
        let velocity = 100 + crate::rng::rand_below(&mut self.rng, 20) as u8;
        let duration = if ticks_per_step / 2 == 0 { 1 } else { ticks_per_step / 2 };
        events.push(MidiEvent::new(note, velocity, base_tick, duration));
        events
    }

    /// Generate events for one window: the pattern advances one step per
    /// `ticks_per_bar / steps_per_bar` ticks; each enabled voice may hit
    /// (with its probability and accent), ghost notes sound at half-step
    /// length, and a fill may replace the tail of a bar. Velocities stay
    /// in 1..=127 and every event starts inside the window.
    pub fn generate(&mut self, context: &GeneratorContext) -> (r: Vec<MidiEvent>)
        requires
            old(self).wf(),
            context.wf(),
        ensures
            final(self).wf(),
            final(self).spec_config() == old(self).spec_config(),
            forall|i: int| 0 <= i < r@.len()
                ==> 1 <= (#[trigger] r@[i]).velocity <= 127
                    && r@[i].start_tick < context.ticks_to_generate,
            // With fills off and no fill running, every certain pattern
            // hit sounds: each due voice has an event on its step's tick.
            ({
                let cfg = old(self).spec_config();
                cfg.fill_permille == 0 && !old(self).spec_state().3
                    && old(self).spec_state().0 < cfg.steps_per_bar
            }) ==> ({
                let cfg = old(self).spec_config();
                let tpb = context.ppqn as int * context.beats_per_bar as int;
                let tps0 = tpb / cfg.steps_per_bar as int;
                let tps = if tps0 == 0 { 1int } else { tps0 };
                let s0 = old(self).spec_state().0;
                forall|k: int, v: int| 0 <= k && k * tps < context.ticks_to_generate
                    && #[trigger] spec_drum_hit_due(old(self).spec_voices(), v,
                        (s0 + k) % cfg.steps_per_bar as int)
                    ==> exists|j: int| 0 <= j < r@.len()
                        && (#[trigger] r@[j]).note == old(self).spec_voices()[v].note
                        && r@[j].start_tick == k * tps
            }),
    {
        let ghost deterministic = old(self).spec_config().fill_permille == 0
            && !old(self).spec_state().3
            && old(self).spec_state().0 < old(self).spec_config().steps_per_bar;
        let ghost s0 = old(self).spec_state().0;
        let ghost stepsi = old(self).spec_config().steps_per_bar as int;
        let mut events: Vec<MidiEvent> = Vec::new();
        let bar_len = context.ticks_per_bar();
        let steps = self.config.steps_per_bar as u64;
        let tps = bar_len / steps;
        let ticks_per_step = if tps == 0 { 1 } else { tps };
        let ghost mut k: int = 0;
        proof {
            if deterministic {
                vstd::arithmetic::div_mod::lemma_small_mod(s0 as nat, stepsi as nat);
                assert(0 * ticks_per_step == 0) by (nonlinear_arith);
            }
        }

        let mut tick: u64 = 0;
        while tick < context.ticks_to_generate
            invariant
                self.wf(),
                self.spec_config() == old(self).spec_config(),
                self.spec_voices() == old(self).spec_voices(),
                tick <= context.ticks_to_generate,
                ticks_per_step >= 1,
                ticks_per_step as int == ({
                    let tps0 = (context.ppqn as int * context.beats_per_bar as int)
                        / stepsi;
                    if tps0 == 0 { 1int } else { tps0 }
                }),
                stepsi >= 1,
                forall|i: int| 0 <= i < events@.len()
                    ==> 1 <= (#[trigger] events@[i]).velocity <= 127
                        && events@[i].start_tick < context.ticks_to_generate,
                deterministic ==> {
                    &&& !self.spec_state().3
                    &&& k >= 0
                    &&& tick < context.ticks_to_generate
                        ==> tick as int == k * ticks_per_step
                    &&& tick == context.ticks_to_generate
                        ==> context.ticks_to_generate as int <= k * ticks_per_step
                    &&& self.spec_state().0 == (s0 + k) % stepsi
                    &&& forall|k2: int, v: int| 0 <= k2 < k
                        && k2 * ticks_per_step < context.ticks_to_generate
                        && #[trigger] spec_drum_hit_due(old(self).spec_voices(), v,
                            (s0 + k2) % stepsi)
                        ==> exists|j: int| 0 <= j < events@.len()
                            && (#[trigger] events@[j]).note
                                == old(self).spec_voices()[v].note
                            && events@[j].start_tick == k2 * ticks_per_step
                },
            decreases context.ticks_to_generate - tick,
        {
            proof {
                if deterministic {
                    assert(k * ticks_per_step < context.ticks_to_generate);
                }
            }
            let ghost events_at_k = events@;
            let step = self.current_step;

            // Decide whether a fill starts at the three-quarter mark.
            if step == 12 && self.config.fill_every_bars > 0 {
                if (self.current_bar % self.config.fill_every_bars as u64)
                    == self.config.fill_every_bars as u64 - 1 {
                    let roll = crate::rng::rand_permille(&mut self.rng);
                    if (roll as u16) < self.config.fill_permille {
                        self.in_fill = true;
                    }
                }
            }

            if self.in_fill && step >= 12 {
                // Generate the fill for this step
                let fill_events = self.generate_fill(tick, ticks_per_step);
                let mut f: usize = 0;
                while f < fill_events.len()
                    invariant
                        0 <= f <= fill_events@.len(),
                        forall|i: int| 0 <= i < fill_events@.len()
                            ==> 1 <= (#[trigger] fill_events@[i]).velocity <= 127
                                && fill_events@[i].start_tick == tick,
                        tick < context.ticks_to_generate,
                        forall|i: int| 0 <= i < events@.len()
                            ==> 1 <= (#[trigger] events@[i]).velocity <= 127
                                && events@[i].start_tick < context.ticks_to_generate,
                    decreases fill_events@.len() - f,
                {
                    events.push(fill_events[f]);
                    f = f + 1;
                }
            } else {
                // Sound each enabled voice for this step
                let ghost old_iter_state = self.spec_state();
                let nv = self.voices.len();
                let mut v: usize = 0;
                while v < nv
                    invariant
                        0 <= v <= nv,
                        nv == self.spec_voices().len(),
                        self.wf(),
                        self.spec_config() == old(self).spec_config(),
                        self.spec_voices() == old(self).spec_voices(),
                        self.spec_state() == old_iter_state,
                        tick < context.ticks_to_generate,
                        ticks_per_step >= 1,
                        forall|i: int| 0 <= i < events@.len()
                            ==> 1 <= (#[trigger] events@[i]).velocity <= 127
                                && events@[i].start_tick < context.ticks_to_generate,
                        events_at_k.len() <= events@.len(),
                        forall|j: int| 0 <= j < events_at_k.len()
                            ==> #[trigger] events@[j] == events_at_k[j],
                        deterministic ==> forall|v2: int| 0 <= v2 < v
                            && #[trigger] spec_drum_hit_due(old(self).spec_voices(),
                                v2, (s0 + k) % stepsi)
                            ==> exists|j: int| 0 <= j < events@.len()
                                && (#[trigger] events@[j]).note
                                    == old(self).spec_voices()[v2].note
                                && events@[j].start_tick == k * ticks_per_step,
                    decreases nv - v,
                {
                    let ghost events_at_v = events@;
                    let ghost mut hit_idx: int = 0;
                    let enabled = self.voices[v].enabled;
                    if enabled {
                        let plen = self.voices[v].pattern.len();
                        if plen > 0 {
                            let step_idx = step % plen;
                            let should_hit = self.voices[v].pattern[step_idx];
                            let is_accent = if step_idx < self.voices[v].accent_pattern.len() {
                                self.voices[v].accent_pattern[step_idx]
                            } else {
                                false
                            };
                            let should_ghost = if step_idx < self.voices[v].ghost_pattern.len() {
                                self.voices[v].ghost_pattern[step_idx]
                            } else {
                                false
                            };
                            let note = self.voices[v].note;
                            let vel = self.voices[v].velocity;
                            let accent_vel = self.voices[v].accent_velocity;
                            let ghost_vel = self.voices[v].ghost_velocity;
                            let prob = self.voices[v].probability_permille;

                            if should_hit {
                                let roll = crate::rng::rand_permille(&mut self.rng);
                                if (roll as u16) < prob {
                                    let base_vel = if is_accent { accent_vel } else { vel };
                                    let velocity = self.humanize_velocity(base_vel);
                                    events.push(MidiEvent::new(
                                        note, velocity, tick, ticks_per_step));
                                    proof {
                                        hit_idx = events@.len() - 1;
                                        assert(events@[hit_idx].note == note);
                                        assert(events@[hit_idx].start_tick == tick);
                                    }
                                }
                            }

                            if should_ghost {
                                let velocity = self.humanize_velocity(ghost_vel);
                                let half = if ticks_per_step / 2 == 0 {
                                    1
                                } else {
                                    ticks_per_step / 2
                                };
                                events.push(MidiEvent::new(note, velocity, tick, half));
                            }
                        }
                    }
                    proof {
                        if deterministic {
                            assert forall|v2: int| 0 <= v2 < v + 1
                                && #[trigger] spec_drum_hit_due(old(self).spec_voices(),
                                    v2, (s0 + k) % stepsi)
                                implies exists|j: int| 0 <= j < events@.len()
                                    && (#[trigger] events@[j]).note
                                        == old(self).spec_voices()[v2].note
                                    && events@[j].start_tick
                                        == k * ticks_per_step by {
                                if v2 == v as int {
                                    assert(0 <= hit_idx < events@.len());
                                    assert(events@[hit_idx].note
                                        == old(self).spec_voices()[v2].note);
                                    assert(events@[hit_idx].start_tick == tick);
                                    assert(tick as int == k * ticks_per_step);
                                } else {
                                    let j2 = choose|j: int| 0 <= j < events_at_v.len()
                                        && (#[trigger] events_at_v[j]).note
                                            == old(self).spec_voices()[v2].note
                                        && events_at_v[j].start_tick
                                            == k * (ticks_per_step as int);
                                    assert(0 <= j2 < events@.len());
                                    assert(events@[j2] == events_at_v[j2]);
                                }
                            }
                        }
                    }
                    v = v + 1;
                }
            }

            proof {
                if deterministic {
                    assert forall|k2: int, v2: int| 0 <= k2 < k + 1
                        && k2 * (ticks_per_step as int) < context.ticks_to_generate
                        && #[trigger] spec_drum_hit_due(old(self).spec_voices(), v2,
                            (s0 + k2) % stepsi)
                        implies exists|j: int| 0 <= j < events@.len()
                            && (#[trigger] events@[j]).note
                                == old(self).spec_voices()[v2].note
                            && events@[j].start_tick
                                == k2 * (ticks_per_step as int) by {
                        if k2 < k {
                            let j2 = choose|j: int| 0 <= j < events_at_k.len()
                                && (#[trigger] events_at_k[j]).note
                                    == old(self).spec_voices()[v2].note
                                && events_at_k[j].start_tick
                                    == k2 * (ticks_per_step as int);
                            assert(0 <= j2 < events@.len());
                            assert(events@[j2] == events_at_k[j2]);
                        }
                    }
                }
            }
            // Advance the step
            let bumped = if self.current_step < usize::MAX { self.current_step + 1 } else { 0 };
            self.current_step = bumped % self.config.steps_per_bar as usize;
            if self.current_step == 0 {
                self.current_bar = if self.current_bar < u64::MAX {
                    self.current_bar + 1
                } else {
                    0
                };
                self.in_fill = false;
            }

            tick = if tick <= u64::MAX - ticks_per_step
                && tick + ticks_per_step <= context.ticks_to_generate {
                tick + ticks_per_step
            } else {
                context.ticks_to_generate
            };
            proof {
                if deterministic {
                    vstd::arithmetic::div_mod::lemma_add_mod_noop(s0 + k, 1, stepsi);
                    if stepsi >= 2 {
                        vstd::arithmetic::div_mod::lemma_small_mod(1nat, stepsi as nat);
                    }
                    assert(self.spec_state().0 == (s0 + k + 1) % stepsi);
                    assert((k + 1) * ticks_per_step == k * ticks_per_step
                        + ticks_per_step) by (nonlinear_arith);
                    k = k + 1;
                }
            }
        }

        proof {
            if deterministic {
                assert forall|k2: int, v: int| 0 <= k2
                    && k2 * (ticks_per_step as int) < context.ticks_to_generate
                    && #[trigger] spec_drum_hit_due(old(self).spec_voices(), v,
                        (s0 + k2) % stepsi)
                    implies exists|j: int| 0 <= j < events@.len()
                        && (#[trigger] events@[j]).note
                            == old(self).spec_voices()[v].note
                        && events@[j].start_tick == k2 * (ticks_per_step as int) by {
                    if k2 >= k {
                        vstd::arithmetic::mul::lemma_mul_inequality(
                            k, k2, ticks_per_step as int);
                        assert(false);
                    }
                }
            }
        }
        self.tick_accumulator = if self.tick_accumulator
            <= u64::MAX - context.ticks_to_generate {
            self.tick_accumulator + context.ticks_to_generate
        } else {
            u64::MAX
        };
        events
    }
}

/// Whether voice `v` is due to sound at `step` with certainty: it is
/// enabled, its pattern marks the step, and its probability is full.
pub open spec fn spec_drum_hit_due(voices: Seq<DrumVoice>, v: int, step: int) -> bool {
    &&& 0 <= v < voices.len()
    &&& voices[v].enabled
    &&& voices[v].pattern@.len() > 0
    &&& voices[v].probability_permille == 1000
    &&& voices[v].pattern@[step % voices[v].pattern@.len() as int]
}

/// Every voice inside its ranges.
pub open spec fn voices_ok(voices: Seq<DrumVoice>) -> bool {
    forall|i: int| 0 <= i < voices.len() ==> (#[trigger] voices[i]).wf()
}

/// A pattern with a hit on every `every`-th step.
fn pattern_every(steps: usize, every: usize) -> (r: Vec<bool>)
    requires
        every >= 1,
    ensures
        r@.len() == steps,
        forall|i: int| 0 <= i < steps ==> #[trigger] r@[i] == (i % every as int == 0),
{
    let mut r: Vec<bool> = Vec::new();
    let mut i: usize = 0;
    while i < steps
        invariant
            0 <= i <= steps,
            r@.len() == i,
            forall|j: int| 0 <= j < i ==> #[trigger] r@[j] == (j % every as int == 0),
        decreases steps - i,
    {
        r.push(i % every == 0);
        i = i + 1;
    }
    r
}

/// A pattern with hits exactly at two positions.
fn pattern_at(steps: usize, a: usize, b: usize) -> (r: Vec<bool>)
    ensures
        r@.len() == steps,
        forall|i: int| 0 <= i < steps ==> #[trigger] r@[i] == (i == a || i == b),
{
    let mut r: Vec<bool> = Vec::new();
    let mut i: usize = 0;
    while i < steps
        invariant
            0 <= i <= steps,
            r@.len() == i,
            forall|j: int| 0 <= j < i ==> #[trigger] r@[j] == (j == a || j == b),
        decreases steps - i,
    {
        r.push(i == a || i == b);
        i = i + 1;
    }
    r
}

/// A pattern with hits exactly at three positions.
fn pattern_at3(steps: usize, a: usize, b: usize, c: usize) -> (r: Vec<bool>)
    ensures
        r@.len() == steps,
        forall|i: int| 0 <= i < steps ==> #[trigger] r@[i] == (i == a || i == b || i == c),
{
    let mut r: Vec<bool> = Vec::new();
    let mut i: usize = 0;
    while i < steps
        invariant
            0 <= i <= steps,
            r@.len() == i,
            forall|j: int| 0 <= j < i ==> #[trigger] r@[j] == (j == a || j == b || j == c),
        decreases steps - i,
    {
        r.push(i == a || i == b || i == c);
        i = i + 1;
    }
    r
}

/// A pattern with hits exactly at five positions.
fn pattern_at5(steps: usize, a: usize, b: usize, c: usize, d: usize, e: usize) -> (r: Vec<bool>)
    ensures
        r@.len() == steps,
        forall|i: int| 0 <= i < steps
            ==> #[trigger] r@[i] == (i == a || i == b || i == c || i == d || i == e),
{
    let mut r: Vec<bool> = Vec::new();
    let mut i: usize = 0;
    while i < steps
        invariant
            0 <= i <= steps,
            r@.len() == i,
            forall|j: int| 0 <= j < i
                ==> #[trigger] r@[j] == (j == a || j == b || j == c || j == d || j == e),
        decreases steps - i,
    {
        r.push(i == a || i == b || i == c || i == d || i == e);
        i = i + 1;
    }
    r
}

/// A random pattern where each step hits with the given probability in
/// thousandths.
fn random_pattern(rng: &mut rand::rngs::StdRng, steps: usize, permille: u16) -> (r: Vec<bool>)
    ensures
        r@.len() == steps,
{
    let mut r: Vec<bool> = Vec::new();
    let mut i: usize = 0;
    while i < steps
        invariant
            0 <= i <= steps,
            r@.len() == i,
        decreases steps - i,
    {
        let roll = crate::rng::rand_permille(rng);
        r.push((roll as u16) < permille);
        i = i + 1;
    }
    r
}

} // verus!
