//! Drone generator for sustained pad-like sounds.
//!
//! Generates sustained notes with slow movement between scale tones,
//! featuring voice leading and configurable density. Every sounding voice
//! holds a scale tone of the key its voices were built for; the voices are
//! rebuilt whenever the context's key changes.

use vstd::prelude::*;

use crate::generators::{GeneratorContext, MidiEvent, events_in_scale};
use crate::generators::arpeggio::pc_in_ivals;
use crate::generators::chord::chord_ok;
use crate::music::scale::Scale;

verus! {

/// Configuration for drone behavior. Probabilities are in thousandths;
/// the change rate is in thousandths of a beat.
#[derive(Debug, Clone, Copy, PartialEq, Eq, Structural)]
pub struct DroneConfig {
    /// Number of voices (1..=8)
    pub voices: u8,
    /// How often notes change, in thousandths of a beat (0 = never)
    pub change_rate_millibeats: u32,
    /// Probability of a voice changing when triggered (0..=1000)
    pub change_probability_permille: u16,
    /// Base velocity (1..=127)
    pub velocity: u8,
    /// Velocity variation, plus or minus (0..=64)
    pub velocity_variation: u8,
    /// Preferred intervals: 0 = any, 1 = root, 2 = fifth, 3 = thirds
    pub interval_preference: u8,
    /// Maximum interval jump in scale degrees (1..=7)
    pub max_jump: u8,
    /// Base octave (0..=8)
    pub base_octave: i8,
    /// Octave spread for voices (0..=4)
    pub octave_spread: u8,
}

impl DroneConfig {
    /// All numeric fields inside their documented ranges.
    pub open spec fn wf(self) -> bool {
        &&& 1 <= self.voices <= 8
        &&& self.change_probability_permille <= 1000
        &&& 1 <= self.velocity <= 127
        &&& self.velocity_variation <= 64
        &&& self.interval_preference <= 3
        &&& 1 <= self.max_jump <= 7
        &&& 0 <= self.base_octave <= 8
        &&& self.octave_spread <= 4
    }

    /// The configuration with every field forced into its range.
    pub open spec fn spec_clamped(self) -> DroneConfig {
        DroneConfig {
            voices: crate::spec_clamp(self.voices as int, 1, 8) as u8,
            change_rate_millibeats: self.change_rate_millibeats,
            change_probability_permille: crate::spec_clamp(
                self.change_probability_permille as int, 0, 1000) as u16,
            velocity: crate::spec_clamp(self.velocity as int, 1, 127) as u8,
            velocity_variation: crate::spec_clamp(self.velocity_variation as int, 0, 64) as u8,
            interval_preference: crate::spec_clamp(self.interval_preference as int, 0, 3) as u8,
            max_jump: crate::spec_clamp(self.max_jump as int, 1, 7) as u8,
            base_octave: crate::spec_clamp(self.base_octave as int, 0, 8) as i8,
            octave_spread: crate::spec_clamp(self.octave_spread as int, 0, 4) as u8,
        }
    }

    /// The configuration with every field forced into its range.
    pub fn clamped(self) -> (r: Self)
        ensures
            r == self.spec_clamped(),
            r.wf(),
    {
        DroneConfig {
            voices: crate::clamp_u8(self.voices, 1, 8),
            change_rate_millibeats: self.change_rate_millibeats,
            change_probability_permille: crate::clamp_u16(
                self.change_probability_permille, 0, 1000),
            velocity: crate::clamp_u8(self.velocity, 1, 127),
            velocity_variation: crate::clamp_u8(self.velocity_variation, 0, 64),
            interval_preference: crate::clamp_u8(self.interval_preference, 0, 3),
            max_jump: crate::clamp_u8(self.max_jump, 1, 7),
            base_octave: crate::clamp_i8(self.base_octave, 0, 8),
            octave_spread: crate::clamp_u8(self.octave_spread, 0, 4),
        }
    }

    /// The default configuration: three voices changing about every four
    /// beats with even odds, moderate velocity, no interval preference.
    pub open spec fn is_default(self) -> bool {
        self == DroneConfig {
            voices: 3,
            change_rate_millibeats: 4000,
            change_probability_permille: 500,
            velocity: 80,
            velocity_variation: 10,
            interval_preference: 0,
            max_jump: 2,
            base_octave: 3,
            octave_spread: 2,
        }
    }
}

impl Default for DroneConfig {
    /// See `DroneConfig::is_default`.
    fn default() -> (r: Self)
        ensures
            r.is_default(),
            r.wf(),
    {
        Self {
            voices: 3,
            change_rate_millibeats: 4000,  // Change every 4 beats
            change_probability_permille: 500,
            velocity: 80,
            velocity_variation: 10,
            interval_preference: 0,
            max_jump: 2,
            base_octave: 3,
            octave_spread: 2,
        }
    }
}

/// Active voice state
#[derive(Debug, Clone, Copy, PartialEq, Eq, Structural)]
pub struct Voice {
    /// Current MIDI note
    pub note: u8,
    /// Current velocity
    pub velocity: u8,
    /// Whether this voice is currently sounding
    pub active: bool,
    /// Ticks until this voice should change
    pub change_in: u64,
}

/// Drone generator
pub struct DroneGenerator {
    config: DroneConfig,
    voices: Vec<Voice>,
    /// Root pitch class of the scale the voices were built for
    voices_root_pc: u8,
    /// Intervals of the scale the voices were built for
    voices_ivals: Vec<u8>,
    last_change_tick: u64,
    rng: rand::rngs::StdRng,
}

impl DroneGenerator {
    /// The configuration.
    pub closed spec fn spec_config(self) -> DroneConfig {
        self.config
    }

    /// The voices.
    pub closed spec fn spec_voices(self) -> Seq<Voice> {
        self.voices@
    }

    /// Root pitch class the voices were built for.
    pub closed spec fn spec_root_pc(self) -> int {
        self.voices_root_pc as int
    }

    /// Scale intervals the voices were built for.
    pub closed spec fn spec_ivals(self) -> Seq<u8> {
        self.voices_ivals@
    }

    /// The mutable state apart from the random source.
    pub closed spec fn spec_state(self) -> (Seq<Voice>, int) {
        (self.voices@, self.last_change_tick as int)
    }

    /// The state a freshly created generator starts in.
    pub open spec fn spec_fresh_state() -> (Seq<Voice>, int) {
        (Seq::empty(), 0)
    }

    /// Configuration in range and every voice holding a scale tone of the
    /// scale the voices were built for.
    pub open spec fn wf(self) -> bool {
        &&& self.spec_config().wf()
        &&& chord_ok(self.spec_voices().map_values(|v: Voice| v.note),
            self.spec_root_pc(), self.spec_ivals())
    }

    /// Create a new drone generator
    pub fn new() -> (r: Self)
        ensures
            r.wf(),
            r.spec_config().is_default(),
            r.spec_state() == DroneGenerator::spec_fresh_state(),
    {
        let r = Self {
            config: DroneConfig::default(),
            voices: Vec::new(),
            voices_root_pc: 0,
            voices_ivals: Vec::new(),
            last_change_tick: 0,
            rng: crate::rng::fresh_rng(),
        };
        proof {
            assert(r.spec_voices().map_values(|v: Voice| v.note) =~= Seq::<u8>::empty());
        }
        r
    }

    /// The generator's name.
    pub fn name(&self) -> (r: &'static str)
        ensures
            r@ == "drone"@,
    {
        "drone"
    }

    /// The current configuration.
    pub fn config(&self) -> (r: &DroneConfig)
        ensures
            *r == self.spec_config(),
    {
        &self.config
    }

    /// Replace the configuration; every field is forced into its range and
    /// the voices are dropped so the next window rebuilds them.
    pub fn set_config(&mut self, config: DroneConfig)
        requires
            old(self).wf(),
        ensures
            final(self).wf(),
            final(self).spec_config() == config.spec_clamped(),
            final(self).spec_voices().len() == 0,
    {
        self.config = config.clamped();
        self.voices = Vec::new();
        proof {
            assert(self.spec_voices().map_values(|v: Voice| v.note) =~= Seq::<u8>::empty());
        }
    }

    /// Reset the generator: the voices are cleared so the next window
    /// rebuilds them. The configuration is kept.
    pub fn reset(&mut self)
        requires
            old(self).wf(),
        ensures
            final(self).wf(),
            final(self).spec_config() == old(self).spec_config(),
            final(self).spec_state() == DroneGenerator::spec_fresh_state(),
    {
        self.voices = Vec::new();
        self.last_change_tick = 0;
        proof {
            assert(self.spec_voices().map_values(|v: Voice| v.note) =~= Seq::<u8>::empty());
        }
    }

    /// A random velocity within the configured variation of the base,
    /// clamped into 1..=127.
    fn random_velocity(&mut self) -> (r: u8)
        requires
            old(self).spec_config().wf(),
        ensures
            final(self).spec_config() == old(self).spec_config(),
            final(self).spec_voices() == old(self).spec_voices(),
            final(self).spec_root_pc() == old(self).spec_root_pc(),
            final(self).spec_ivals() == old(self).spec_ivals(),
            final(self).spec_state() == old(self).spec_state(),
            1 <= r <= 127,
    {
        let base = self.config.velocity as i32;
        let var = self.config.velocity_variation as i32;
        let offset = crate::rng::rand_between_i32(&mut self.rng, -var, var);
        crate::clamp_i32(base + offset, 1, 127) as u8
    }

    /// A random delay until the next voice change: the configured rate in
    /// ticks plus up to a quarter of it; the far future when the rate is
    /// zero.
    fn random_change_delay(&mut self, context: &GeneratorContext) -> (r: u64)
        ensures
            final(self).spec_config() == old(self).spec_config(),
            final(self).spec_voices() == old(self).spec_voices(),
            final(self).spec_root_pc() == old(self).spec_root_pc(),
            final(self).spec_ivals() == old(self).spec_ivals(),
            final(self).spec_state() == old(self).spec_state(),
    {
        if self.config.change_rate_millibeats == 0 {
            return u64::MAX;  // Never change
        }
        proof {
            vstd::arithmetic::mul::lemma_mul_nonnegative(
                context.ppqn as int, self.config.change_rate_millibeats as int);
            vstd::arithmetic::mul::lemma_mul_upper_bound(
                context.ppqn as int, 0x1_0000_0000,
                self.config.change_rate_millibeats as int, 0x1_0000_0000);
        }
        let base_ticks: u64 =
            ((context.ppqn as u128 * self.config.change_rate_millibeats as u128) / 1000) as u64;
        let variation = base_ticks / 4;
        let offset = if variation > 0 {
            crate::rng::rand_below(&mut self.rng, variation + 1)
        } else {
            0
        };
        if base_ticks <= u64::MAX - offset {
            base_ticks + offset
        } else {
            u64::MAX
        }
    }

    /// Build the voices for the context's scale: one per configured voice,
    /// spread across octaves, seeded from the root, fifth and third
    /// degrees and then by position. Every voice holds a scale tone.
    fn ensure_voices(&mut self, context: &GeneratorContext)
        requires
            old(self).wf(),
            context.key.spec_scale().spec_len() > 0,
        ensures
            final(self).wf(),
            final(self).spec_config() == old(self).spec_config(),
            final(self).spec_voices().len() == final(self).spec_config().voices,
            final(self).spec_root_pc() == context.key.spec_scale().spec_root().pc(),
            final(self).spec_ivals() == context.key.spec_scale().ivals(),
            forall|i: int| 0 <= i < final(self).spec_voices().len()
                ==> (#[trigger] final(self).spec_voices()[i]).active
                    && 1 <= final(self).spec_voices()[i].velocity <= 127,
    {
        let scale = context.key.scale();
        let ghost key_scale = *scale;
        let mut voices: Vec<Voice> = Vec::new();

        let n = self.config.voices;
        let mut i: u8 = 0;
        while i < n
            invariant
                0 <= i <= n,
                self.spec_config() == old(self).spec_config(),
                self.spec_config().wf(),
                n == self.spec_config().voices,
                key_scale == context.key.spec_scale(),
                voices@.len() == i,
                forall|j: int| 0 <= j < voices@.len()
                    ==> key_scale.has_pc((#[trigger] voices@[j]).note as int % 12)
                        && voices@[j].active
                        && 1 <= voices@[j].velocity <= 127,
            decreases n - i,
        {
            // Distribute voices across octaves
            let octave_offset: i8 = if self.config.octave_spread > 0 {
                (i as i8 % (self.config.octave_spread as i8 + 1))
                    - (self.config.octave_spread as i8 / 2)
            } else {
                0
            };
            let octave = self.config.base_octave + octave_offset;

            // Pick the initial scale degree by voice position
            let degree: usize = if i == 0 {
                1  // Root
            } else if i == 1 {
                5  // Fifth
            } else if i == 2 {
                3  // Third
            } else {
                if scale.len() > 0 { (i as usize % scale.len()) + 1 } else { 1 }
            };

            let note = match note_in_scale(scale, degree, octave) {
                Some(v) => v,
                None => {
                    // Fall back to the scale's first tone in a middle
                    // octave, which always lies in MIDI range.
                    let pc = scale.notes()[0].pitch_class();
                    proof {
                        crate::music::scale::lemma_from_pc_pc(key_scale.pc_at(0));
                        vstd::arithmetic::div_mod::lemma_mod_multiples_vanish(
                            5, key_scale.pc_at(0), 12);
                        vstd::arithmetic::div_mod::lemma_small_mod(
                            key_scale.pc_at(0) as nat, 12);
                    }
                    60 + pc
                },
            };
            let velocity = self.random_velocity();
            let change_in = self.random_change_delay(context);

            voices.push(Voice { note, velocity, active: true, change_in });
            i = i + 1;
        }

        self.voices = voices;
        self.voices_root_pc = scale.root().pitch_class();
        let ivs = scale.intervals();
        let mut ivals_copy: Vec<u8> = Vec::new();
        let mut k: usize = 0;
        while k < ivs.len()
            invariant
                0 <= k <= ivs@.len(),
                ivals_copy@ == ivs@.take(k as int),
            decreases ivs@.len() - k,
        {
            ivals_copy.push(ivs[k]);
            proof {
                assert(ivals_copy@ =~= ivs@.take(k as int + 1));
            }
            k = k + 1;
        }
        proof {
            assert(ivs@.take(ivs@.len() as int) =~= ivs@);
        }
        self.voices_ivals = ivals_copy;
        proof {
            let notes = self.spec_voices().map_values(|v: Voice| v.note);
            assert forall|j: int| 0 <= j < notes.len()
                implies pc_in_ivals(#[trigger] notes[j] as int % 12,
                    self.spec_root_pc(), self.spec_ivals()) by {
                assert(key_scale.has_pc(self.spec_voices()[j].note as int % 12));
                let w = choose|w: int| 0 <= w < key_scale.spec_len()
                    && key_scale.pc_at(w) == self.spec_voices()[j].note as int % 12;
                assert((self.spec_root_pc() + self.spec_ivals()[w]) % 12
                    == notes[j] as int % 12);
            }
        }
    }

    /// Whether the voices were built for the context's scale.
    fn voices_match(&self, context: &GeneratorContext) -> (r: bool)
        ensures
            r == (self.spec_root_pc() == context.key.spec_scale().spec_root().pc()
                && self.spec_ivals() == context.key.spec_scale().ivals()),
    {
        let scale = context.key.scale();
        if self.voices_root_pc != scale.root().pitch_class() {
            return false;
        }
        let ivals = scale.intervals();
        if self.voices_ivals.len() != ivals.len() {
            return false;
        }
        let n = ivals.len();
        let mut i: usize = 0;
        while i < n
            invariant
                0 <= i <= n,
                n == self.voices_ivals@.len(),
                n == context.key.spec_scale().ivals().len(),
                ivals@ == context.key.spec_scale().ivals(),
                forall|j: int| 0 <= j < i
                    ==> self.voices_ivals@[j] == context.key.spec_scale().ivals()[j],
            decreases n - i,
        {
            if self.voices_ivals[i] != ivals[i] {
                return false;
            }
            i = i + 1;
        }
        proof {
            assert(self.voices_ivals@ =~= context.key.spec_scale().ivals());
        }
        true
    }

    /// Pick a new scale tone near the voice's current note: candidates are
    /// scale tones within the configured jump, weighted by the interval
    /// preference and filtered against the other voices; the current note
    /// stays when no candidate remains.
    fn pick_new_note(&mut self, voice_idx: usize, context: &GeneratorContext) -> (r: u8)
        requires
            old(self).wf(),
            voice_idx < old(self).spec_voices().len(),
            old(self).spec_root_pc() == context.key.spec_scale().spec_root().pc(),
            old(self).spec_ivals() == context.key.spec_scale().ivals(),
        ensures
            final(self).wf(),
            final(self).spec_config() == old(self).spec_config(),
            final(self).spec_voices() == old(self).spec_voices(),
            final(self).spec_root_pc() == old(self).spec_root_pc(),
            final(self).spec_ivals() == old(self).spec_ivals(),
            context.key.spec_scale().has_pc(r as int % 12),
    {
        let scale = context.key.scale();
        let ghost key_scale = *scale;
        let current_note = self.voices[voice_idx].note;
        proof {
            let notes = self.spec_voices().map_values(|v: Voice| v.note);
            assert(notes[voice_idx as int] == current_note);
            assert(pc_in_ivals(current_note as int % 12,
                self.spec_root_pc(), self.spec_ivals()));
            let w = choose|w: int| 0 <= w < key_scale.ivals().len()
                && (key_scale.spec_root().pc() + key_scale.ivals()[w]) % 12
                    == current_note as int % 12;
            assert(key_scale.pc_at(w) == current_note as int % 12);
            assert(key_scale.has_pc(current_note as int % 12));
        }

        // Gather nearby scale tones
        let mut candidates: Vec<u8> = Vec::new();
        let scale_len = scale.len();
        let mut d0: usize = 0;
        while d0 < scale_len
            invariant
                0 <= d0 <= scale_len,
                forall|c: int| 0 <= c < candidates@.len()
                    ==> key_scale.has_pc((#[trigger] candidates@[c]) as int % 12),
            decreases scale_len - d0,
        {
            let degree = d0 + 1;
            let spread = self.config.octave_spread as i8;
            let mut off: i8 = -spread;
            while off <= spread
                invariant
                    -4 <= off,
                    off <= spread + 1,
                    forall|c: int| 0 <= c < candidates@.len()
                        ==> key_scale.has_pc((#[trigger] candidates@[c]) as int % 12),
                decreases spread + 1 - off,
            {
                let target_octave = self.config.base_octave + off;
                match note_in_scale(scale, degree, target_octave) {
                    Some(note) => {
                        // Keep tones within the configured jump
                        let interval = if note >= current_note {
                            (note - current_note) as u32
                        } else {
                            (current_note - note) as u32
                        };
                        if interval <= self.config.max_jump as u32 * 2 + 2 {
                            // Weight preferred intervals by duplication
                            let weight: u8 = if self.config.interval_preference == 1
                                && degree == 1 {
                                3
                            } else if self.config.interval_preference == 2 && degree == 5 {
                                3
                            } else if self.config.interval_preference == 3
                                && (degree == 3 || degree == 6) {
                                2
                            } else {
                                1
                            };
                            let mut w: u8 = 0;
                            while w < weight
                                invariant
                                    forall|c: int| 0 <= c < candidates@.len()
                                        ==> key_scale.has_pc(
                                            (#[trigger] candidates@[c]) as int % 12),
                                decreases weight - w,
                            {
                                candidates.push(note);
                                w = w + 1;
                            }
                        }
                    },
                    None => {},
                }
                off = off + 1;
            }
            d0 = d0 + 1;
        }

        // Avoid doubling the other voices
        let mut filtered: Vec<u8> = Vec::new();
        let mut c: usize = 0;
        while c < candidates.len()
            invariant
                0 <= c <= candidates@.len(),
                key_scale == context.key.spec_scale(),
                forall|k: int| 0 <= k < candidates@.len()
                    ==> key_scale.has_pc((#[trigger] candidates@[k]) as int % 12),
                forall|k: int| 0 <= k < filtered@.len()
                    ==> key_scale.has_pc((#[trigger] filtered@[k]) as int % 12),
            decreases candidates@.len() - c,
        {
            let cand = candidates[c];
            let mut doubled = false;
            let mut v: usize = 0;
            while v < self.voices.len()
                invariant
                    0 <= v <= self.spec_voices().len(),
                decreases self.spec_voices().len() - v,
            {
                if v != voice_idx && self.voices[v].note == cand {
                    doubled = true;
                }
                v = v + 1;
            }
            if !doubled {
                filtered.push(cand);
            }
            c = c + 1;
        }

        if filtered.len() == 0 {
            return current_note;  // Stay on the current note
        }
        let idx = crate::rng::rand_below(&mut self.rng, filtered.len() as u64) as usize;
        filtered[idx]
    }

    /// Generate events for one window: one sustained event per active
    /// voice covering the window; voices whose countdown has run out may
    /// move to a nearby scale tone for the next window. Every emitted note
    /// is a scale tone of the context's key.
    pub fn generate(&mut self, context: &GeneratorContext) -> (r: Vec<MidiEvent>)
        requires
            old(self).wf(),
            context.wf(),
        ensures
            final(self).wf(),
            final(self).spec_config() == old(self).spec_config(),
            events_in_scale(r@, context.key),
            context.key.spec_scale().spec_len() > 0
                ==> r@.len() == final(self).spec_config().voices,
            context.key.spec_scale().spec_len() == 0 ==> r@.len() == 0,
            forall|i: int| 0 <= i < r@.len()
                ==> (#[trigger] r@[i]).start_tick == 0
                    && r@[i].duration_ticks == context.ticks_to_generate
                    && 1 <= r@[i].velocity <= 127,
    {
        if context.key.scale().len() == 0 {
            // An empty scale offers no tones to sustain.
            return Vec::new();
        }
        if self.voices.len() != self.config.voices as usize || !self.voices_match(context) {
            self.ensure_voices(context);
        }
        let ghost key_scale = context.key.spec_scale();
        assert(self.voices@.len() == self.config.voices);

        let mut events: Vec<MidiEvent> = Vec::new();
        let n = self.voices.len();

        // Emit the sustained voices and find those due for a change.
        let mut i: usize = 0;
        while i < n
            invariant
                0 <= i <= n,
                n == self.spec_voices().len(),
                self.wf(),
                self.spec_root_pc() == key_scale.spec_root().pc(),
                self.spec_ivals() == key_scale.ivals(),
                key_scale == context.key.spec_scale(),
                self.spec_config() == old(self).spec_config(),
                events@.len() == i,
                events_in_scale(events@, context.key),
                forall|j: int| 0 <= j < events@.len()
                    ==> (#[trigger] events@[j]).start_tick == 0
                        && events@[j].duration_ticks == context.ticks_to_generate
                        && 1 <= events@[j].velocity <= 127,
            decreases n - i,
        {
            let voice = self.voices[i];
            proof {
                let notes = self.spec_voices().map_values(|v: Voice| v.note);
                assert(notes[i as int] == voice.note);
                assert(pc_in_ivals(voice.note as int % 12,
                    self.spec_root_pc(), self.spec_ivals()));
                let w = choose|w: int| 0 <= w < key_scale.ivals().len()
                    && (key_scale.spec_root().pc() + key_scale.ivals()[w]) % 12
                        == voice.note as int % 12;
                assert(key_scale.pc_at(w) == voice.note as int % 12);
                assert(key_scale.has_pc(voice.note as int % 12));
            }
            let vel = if voice.velocity >= 1 && voice.velocity <= 127 {
                voice.velocity
            } else {
                self.config.velocity
            };
            events.push(MidiEvent::new(voice.note, vel, 0, context.ticks_to_generate));
            i = i + 1;
        }

        // Update countdowns and move the voices that came due.
        let mut v: usize = 0;
        while v < n
            invariant
                0 <= v <= n,
                n == self.spec_voices().len(),
                self.wf(),
                self.spec_root_pc() == key_scale.spec_root().pc(),
                self.spec_ivals() == key_scale.ivals(),
                key_scale == context.key.spec_scale(),
                self.spec_config() == old(self).spec_config(),
            decreases n - v,
        {
            let due = self.voices[v].change_in == 0;
            if due {
                let delay = self.random_change_delay(context);
                let roll = crate::rng::rand_permille(&mut self.rng);
                let moving = (roll as u16) < self.config.change_probability_permille;
                let new_note = if moving {
                    self.pick_new_note(v, context)
                } else {
                    self.voices[v].note
                };
                let new_velocity = if moving {
                    self.random_velocity()
                } else {
                    self.voices[v].velocity
                };
                proof {
                    if !moving {
                        let notes = self.spec_voices().map_values(|x: Voice| x.note);
                        assert(notes[v as int] == self.spec_voices()[v as int].note);
                        assert(pc_in_ivals(new_note as int % 12,
                            self.spec_root_pc(), self.spec_ivals()));
                    } else {
                        let q = choose|q: int| 0 <= q < key_scale.spec_len()
                            && key_scale.pc_at(q) == new_note as int % 12;
                        assert((self.spec_root_pc() + self.spec_ivals()[q]) % 12
                            == new_note as int % 12);
                        assert(pc_in_ivals(new_note as int % 12,
                            self.spec_root_pc(), self.spec_ivals()));
                    }
                }
                let updated = Voice {
                    note: new_note,
                    velocity: new_velocity,
                    active: true,
                    change_in: delay,
                };
                let ghost before = self.voices@;
                self.voices.set(v, updated);
                proof {
                    let notes = self.spec_voices().map_values(|x: Voice| x.note);
                    assert forall|k: int| 0 <= k < notes.len()
                        implies pc_in_ivals(#[trigger] notes[k] as int % 12,
                            self.spec_root_pc(), self.spec_ivals()) by {
                        if k != v {
                            let bnotes = before.map_values(|x: Voice| x.note);
                            assert(bnotes[k] == before[k].note);
                            assert(notes[k] == before[k].note);
                        }
                    }
                }
            } else {
                let voice = self.voices[v];
                let remaining = if voice.change_in >= context.ticks_to_generate {
                    voice.change_in - context.ticks_to_generate
                } else {
                    0
                };
                let updated = Voice { change_in: remaining, ..voice };
                let ghost before = self.voices@;
                self.voices.set(v, updated);
                proof {
                    let notes = self.spec_voices().map_values(|x: Voice| x.note);
                    assert forall|k: int| 0 <= k < notes.len()
                        implies pc_in_ivals(#[trigger] notes[k] as int % 12,
                            self.spec_root_pc(), self.spec_ivals()) by {
                        let bnotes = before.map_values(|x: Voice| x.note);
                        assert(bnotes[k] == before[k].note);
                        if k != v {
                            assert(notes[k] == before[k].note);
                        } else {
                            assert(notes[k] == updated.note && updated.note == before[k].note);
                        }
                    }
                }
            }
            v = v + 1;
        }

        let current_tick = context.total_ticks();
        self.last_change_tick = current_tick;
        events
    }
}

/// MIDI note of a 1-based degree in an octave, through the scale; `None`
/// when the degree or octave falls outside it.
fn note_in_scale(scale: &Scale, degree: usize, octave: i8) -> (r: Option<u8>)
    ensures
        match r {
            Some(n) => scale.has_pc(n as int % 12),
            None => true,
        },
{
    scale.midi_note_at(degree, octave)
}

} // verus!
