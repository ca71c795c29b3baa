//! Generative engines for algorithmic music creation.
//!
//! This module provides various generators that produce MIDI events
//! algorithmically based on musical rules and probability. Each random
//! decision draws from a generator-owned `rand` state through the wrappers
//! in `crate::rng`; everything that consumes the drawn values is verified
//! for every value they may take.

pub mod arpeggio;
pub mod chord;
pub mod drone;
pub mod drums;
pub mod euclid;
pub mod melody;

use vstd::prelude::*;

use crate::music::scale::Key;

verus! {

/// MIDI event produced by generators
#[derive(Debug, Clone, Copy, PartialEq, Eq, Structural)]
pub struct MidiEvent {
    /// MIDI note number (0-127)
    pub note: u8,
    /// Velocity (0-127)
    pub velocity: u8,
    /// Start time in ticks from current position
    pub start_tick: u64,
    /// Duration in ticks
    pub duration_ticks: u64,
    /// MIDI channel (0-15)
    pub channel: u8,
}

impl MidiEvent {
    /// Create a new MIDI event
    pub fn new(note: u8, velocity: u8, start_tick: u64, duration_ticks: u64) -> (r: Self)
        ensures
            r == (MidiEvent { note, velocity, start_tick, duration_ticks, channel: 0 }),
    {
        Self { note, velocity, start_tick, duration_ticks, channel: 0 }
    }

    /// Set the channel for this event
    pub fn with_channel(self, channel: u8) -> (r: Self)
        ensures
            r == (MidiEvent { channel, ..self }),
    {
        MidiEvent { channel, ..self }
    }
}

/// Every event's pitch class lies in the scale of the given key.
pub open spec fn events_in_scale(events: Seq<MidiEvent>, key: Key) -> bool {
    forall|i: int| 0 <= i < events.len()
        ==> key.spec_scale().has_pc(#[trigger] events[i].note as int % 12)
}

/// Context provided to generators for generating events
#[derive(Debug)]
pub struct GeneratorContext {
    /// Current tempo in thousandths of a beat per minute
    pub tempo_milli_bpm: u32,
    /// Ticks per quarter note (PPQN)
    pub ppqn: u32,
    /// Current beat (0-indexed)
    pub beat: u64,
    /// Current tick within beat
    pub tick: u32,
    /// Current bar (0-indexed)
    pub bar: u64,
    /// Beats per bar (time signature numerator)
    pub beats_per_bar: u8,
    /// Current musical key
    pub key: Key,
    /// Number of ticks to generate
    pub ticks_to_generate: u64,
    /// Global swing amount in thousandths (0..=1000)
    pub swing_permille: u16,
}

impl GeneratorContext {
    /// At least one pulse per beat and a nonempty bar.
    pub open spec fn wf(self) -> bool {
        &&& 1 <= self.ppqn
        &&& 1 <= self.beats_per_bar
    }

    /// A context one beat long in the given key at 120 BPM, 24 PPQN, 4/4.
    pub fn for_key(key: Key) -> (r: Self)
        ensures
            r.wf(),
            r.tempo_milli_bpm == 120_000,
            r.ppqn == 24,
            r.beat == 0,
            r.tick == 0,
            r.bar == 0,
            r.beats_per_bar == 4,
            r.key == key,
            r.ticks_to_generate == 24,
            r.swing_permille == 0,
    {
        Self {
            tempo_milli_bpm: 120_000,
            ppqn: 24,
            beat: 0,
            tick: 0,
            bar: 0,
            beats_per_bar: 4,
            key,
            ticks_to_generate: 24,
            swing_permille: 0,
        }
    }

    /// Absolute tick of the context's bar/beat/tick position, saturating
    /// at the 64-bit limit.
    pub open spec fn spec_total_ticks(self) -> int {
        let exact = self.bar * self.beats_per_bar * self.ppqn + self.beat * self.ppqn
            + self.tick;
        if exact > u64::MAX { u64::MAX as int } else { exact }
    }

    /// Get total ticks from start
    pub fn total_ticks(&self) -> (r: u64)
        ensures
            r == self.spec_total_ticks(),
    {
        proof {
            vstd::arithmetic::mul::lemma_mul_nonnegative(
                self.bar as int, self.beats_per_bar as int);
            vstd::arithmetic::mul::lemma_mul_upper_bound(
                self.bar as int, u64::MAX as int, self.beats_per_bar as int, 256);
            vstd::arithmetic::mul::lemma_mul_nonnegative(
                self.bar as int * self.beats_per_bar as int, self.ppqn as int);
            vstd::arithmetic::mul::lemma_mul_upper_bound(
                self.bar as int * self.beats_per_bar as int,
                u64::MAX as int * 256, self.ppqn as int, 0x1_0000_0000);
            vstd::arithmetic::mul::lemma_mul_nonnegative(self.beat as int, self.ppqn as int);
            vstd::arithmetic::mul::lemma_mul_upper_bound(
                self.beat as int, u64::MAX as int, self.ppqn as int, 0x1_0000_0000);
        }
        let total: u128 = self.bar as u128 * self.beats_per_bar as u128 * self.ppqn as u128
            + self.beat as u128 * self.ppqn as u128 + self.tick as u128;
        if total > u64::MAX as u128 {
            u64::MAX
        } else {
            total as u64
        }
    }

    /// Calculate ticks per beat
    pub fn ticks_per_beat(&self) -> (r: u64)
        ensures
            r == self.ppqn,
    {
        self.ppqn as u64
    }

    /// Calculate ticks per bar
    pub fn ticks_per_bar(&self) -> (r: u64)
        requires
            self.wf(),
        ensures
            r == self.ppqn as int * self.beats_per_bar as int,
            1 <= r <= 0x100_0000_0000,
    {
        proof {
            vstd::arithmetic::mul::lemma_mul_strictly_positive(
                self.ppqn as int, self.beats_per_bar as int);
            vstd::arithmetic::mul::lemma_mul_upper_bound(
                self.ppqn as int, 0x1_0000_0000, self.beats_per_bar as int, 256);
        }
        self.ppqn as u64 * self.beats_per_bar as u64
    }

    /// Duration in ticks for a note value: a whole note spans four beats,
    /// so division 1 = whole, 2 = half, 4 = quarter, 8 = eighth, and so on.
    pub fn note_duration(&self, division: u32) -> (r: u64)
        requires
            division >= 1,
        ensures
            r == (self.ppqn as int * 4) / division as int,
    {
        (self.ppqn as u64 * 4) / division as u64
    }
}

impl Clone for GeneratorContext {
    /// Clone the context; the copy carries the same timing and key.
    fn clone(&self) -> (r: Self)
        ensures
            r.tempo_milli_bpm == self.tempo_milli_bpm,
            r.ppqn == self.ppqn,
            r.beat == self.beat,
            r.tick == self.tick,
            r.bar == self.bar,
            r.beats_per_bar == self.beats_per_bar,
            r.key.spec_root() == self.key.spec_root(),
            r.key.spec_scale().spec_root() == self.key.spec_scale().spec_root(),
            r.key.spec_scale().spec_type() == self.key.spec_scale().spec_type(),
            r.key.spec_scale().ivals() == self.key.spec_scale().ivals(),
            r.ticks_to_generate == self.ticks_to_generate,
            r.swing_permille == self.swing_permille,
    {
        Self {
            tempo_milli_bpm: self.tempo_milli_bpm,
            ppqn: self.ppqn,
            beat: self.beat,
            tick: self.tick,
            bar: self.bar,
            beats_per_bar: self.beats_per_bar,
            key: self.key.clone(),
            ticks_to_generate: self.ticks_to_generate,
            swing_permille: self.swing_permille,
        }
    }
}

/// A generator of any of the built-in kinds, dispatched by variant.
pub enum GeneratorKind {
    /// Sustained multi-voice pad
    Drone(crate::generators::drone::DroneGenerator),
    /// Arpeggiated scale patterns
    Arpeggio(crate::generators::arpeggio::ArpeggioGenerator),
    /// Chord progressions
    Chord(crate::generators::chord::ChordGenerator),
    /// Markov-style melodic lines
    Melody(crate::generators::melody::MelodyGenerator),
    /// Step-based drum patterns
    Drums(crate::generators::drums::DrumGenerator),
}

impl GeneratorKind {
    /// Well-formedness of the wrapped generator.
    pub open spec fn wf(self) -> bool {
        match self {
            GeneratorKind::Drone(g) => g.wf(),
            GeneratorKind::Arpeggio(g) => g.wf(),
            GeneratorKind::Chord(g) => g.wf(),
            GeneratorKind::Melody(g) => g.wf(),
            GeneratorKind::Drums(g) => g.wf(),
        }
    }

    /// Whether this kind's output is bounded by the context's scale.
    pub open spec fn spec_scale_bound(self) -> bool {
        !(self is Drums)
    }

    /// Generate events for one window. Every kind but the drums emits
    /// only scale tones of the context's key.
    pub fn generate(&mut self, context: &GeneratorContext) -> (r: Vec<MidiEvent>)
        requires
            old(self).wf(),
            context.wf(),
        ensures
            final(self).wf(),
            old(self).spec_scale_bound() ==> events_in_scale(r@, context.key),
    {
        match self {
            GeneratorKind::Drone(g) => g.generate(context),
            GeneratorKind::Arpeggio(g) => g.generate(context),
            GeneratorKind::Chord(g) => g.generate(context),
            GeneratorKind::Melody(g) => g.generate(context),
            GeneratorKind::Drums(g) => g.generate(context),
        }
    }

    /// Reset the generator state; each kind returns to its fresh playing
    /// state while keeping its configuration.
    pub fn reset(&mut self)
        requires
            old(self).wf(),
        ensures
            final(self).wf(),
            match *final(self) {
                GeneratorKind::Drone(g) => g.spec_state()
                    == crate::generators::drone::DroneGenerator::spec_fresh_state(),
                GeneratorKind::Arpeggio(g) => g.spec_state()
                    == crate::generators::arpeggio::ArpeggioGenerator::spec_fresh_state(),
                GeneratorKind::Chord(g) => g.spec_state()
                    == crate::generators::chord::ChordGenerator::spec_fresh_state(),
                GeneratorKind::Melody(g) => g.spec_state()
                    == crate::generators::melody::MelodyGenerator::spec_fresh_state(),
                GeneratorKind::Drums(g) => g.spec_state()
                    == crate::generators::drums::DrumGenerator::spec_fresh_state(),
            },
    {
        match self {
            GeneratorKind::Drone(g) => g.reset(),
            GeneratorKind::Arpeggio(g) => g.reset(),
            GeneratorKind::Chord(g) => g.reset(),
            GeneratorKind::Melody(g) => g.reset(),
            GeneratorKind::Drums(g) => g.reset(),
        }
    }

    /// The generator's name.
    pub fn name(&self) -> (r: &'static str)
        ensures
            match *self {
                GeneratorKind::Drone(_) => r@ == "drone"@,
                GeneratorKind::Arpeggio(_) => r@ == "arpeggio"@,
                GeneratorKind::Chord(_) => r@ == "chord"@,
                GeneratorKind::Melody(_) => r@ == "melody"@,
                GeneratorKind::Drums(_) => r@ == "drums"@,
            },
    {
        match self {
            GeneratorKind::Drone(g) => g.name(),
            GeneratorKind::Arpeggio(g) => g.name(),
            GeneratorKind::Chord(g) => g.name(),
            GeneratorKind::Melody(g) => g.name(),
            GeneratorKind::Drums(g) => g.name(),
        }
    }
}

/// Create a fresh generator of the built-in kind with the given name.
pub fn create_generator(name: &str) -> (r: Option<GeneratorKind>)
    ensures
        match r {
            Some(g) => g.wf(),
            None => true,
        },
        name@ == "drone"@ ==> (r matches Some(g) && g is Drone),
        name@ == "arpeggio"@ ==> (r matches Some(g) && g is Arpeggio),
        name@ == "chord"@ ==> (r matches Some(g) && g is Chord),
        name@ == "melody"@ ==> (r matches Some(g) && g is Melody),
        name@ == "drums"@ ==> (r matches Some(g) && g is Drums),
{
    proof {
        broadcast use vstd::string::group_string_axioms;

        reveal_strlit("drone");
        reveal_strlit("arpeggio");
        reveal_strlit("chord");
        reveal_strlit("melody");
        reveal_strlit("drums");
        assert("drone"@.len() == 5 && "arpeggio"@.len() == 8 && "chord"@.len() == 5
            && "melody"@.len() == 6 && "drums"@.len() == 5);
        assert("drone"@ != "chord"@) by {
            assert("drone"@[0] == 'd' && "chord"@[0] == 'c');
        }
        assert("drone"@ != "drums"@) by {
            assert("drone"@[2] == 'o' && "drums"@[2] == 'u');
        }
        assert("chord"@ != "drums"@) by {
            assert("chord"@[0] == 'c' && "drums"@[0] == 'd');
        }
    }
    if crate::text::str_eq(name, "drone") {
        Some(GeneratorKind::Drone(crate::generators::drone::DroneGenerator::new()))
    } else if crate::text::str_eq(name, "arpeggio") {
        Some(GeneratorKind::Arpeggio(crate::generators::arpeggio::ArpeggioGenerator::new()))
    } else if crate::text::str_eq(name, "chord") {
        Some(GeneratorKind::Chord(crate::generators::chord::ChordGenerator::new()))
    } else if crate::text::str_eq(name, "melody") {
        Some(GeneratorKind::Melody(crate::generators::melody::MelodyGenerator::new()))
    } else if crate::text::str_eq(name, "drums") {
        Some(GeneratorKind::Drums(crate::generators::drums::DrumGenerator::new()))
    } else {
        None
    }
}

} // verus!
