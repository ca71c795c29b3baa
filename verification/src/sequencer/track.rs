//! Track system for multi-channel MIDI output.
//!
//! Provides track state management with mute/solo, transpose,
//! swing, and channel routing. Events survive the track pipeline only
//! inside the MIDI range and the track's note window; each surviving
//! event is paired into a note on and a matching note off.

use vstd::prelude::*;

use crate::generators::{GeneratorContext, GeneratorKind, MidiEvent};
use crate::sequencer::clip::{spec_window_events, Clip, ClipState, ClipType};
use crate::sequencer::scheduler::{MidiMessageType, ScheduledEvent};

verus! {

/// Track state for mute/solo/active
#[derive(Debug, Clone, Copy, PartialEq, Eq, Structural)]
pub enum TrackState {
    /// Track is active and playing
    Active,
    /// Track is muted (produces no output)
    Muted,
    /// Track is soloed (only soloed tracks play)
    Soloed,
}

impl Default for TrackState {
    /// Tracks start out active.
    fn default() -> (r: Self)
        ensures
            r == TrackState::Active,
    {
        TrackState::Active
    }
}

/// Configuration for a track. The swing and velocity scale are in
/// thousandths.
#[derive(Debug, Clone, PartialEq)]
pub struct TrackConfig {
    /// Track name
    pub name: String,
    /// MIDI channel (0-15)
    pub channel: u8,
    /// Transpose in semitones (-48 to +48)
    pub transpose: i8,
    /// Swing amount in thousandths (0..=1000)
    pub swing_permille: u16,
    /// Velocity scale in thousandths (0..=2000; 1000 = unchanged)
    pub velocity_scale_permille: u16,
    /// Velocity offset (-127 to +127)
    pub velocity_offset: i8,
    /// Note range minimum (0-127)
    pub note_min: u8,
    /// Note range maximum (0-127)
    pub note_max: u8,
}

impl TrackConfig {
    /// All numeric fields inside their documented ranges.
    pub open spec fn wf(self) -> bool {
        &&& self.channel <= 15
        &&& -48 <= self.transpose <= 48
        &&& self.swing_permille <= 1000
        &&& self.velocity_scale_permille <= 2000
        &&& -127 <= self.velocity_offset
        &&& self.note_min <= 127
        &&& self.note_max <= 127
    }

    /// Create a track config with the given name and neutral transforms.
    pub fn new(name: String) -> (r: Self)
        ensures
            r.wf(),
            r.name@ == name@,
            r.channel == 0,
            r.transpose == 0,
            r.swing_permille == 0,
            r.velocity_scale_permille == 1000,
            r.velocity_offset == 0,
            r.note_min == 0,
            r.note_max == 127,
    {
        Self {
            name,
            channel: 0,
            transpose: 0,
            swing_permille: 0,
            velocity_scale_permille: 1000,
            velocity_offset: 0,
            note_min: 0,
            note_max: 127,
        }
    }

    /// Set the MIDI channel, capped at 15.
    pub fn with_channel(self, channel: u8) -> (r: Self)
        ensures
            r.channel == crate::spec_clamp(channel as int, 0, 15),
            r.name@ == self.name@,
            r.transpose == self.transpose,
            r.swing_permille == self.swing_permille,
    {
        TrackConfig { channel: crate::clamp_u8(channel, 0, 15), ..self }
    }

    /// Set the transpose, clamped to -48..=48 semitones.
    pub fn with_transpose(self, transpose: i8) -> (r: Self)
        ensures
            r.transpose == crate::spec_clamp(transpose as int, -48, 48),
            r.name@ == self.name@,
            r.channel == self.channel,
            r.swing_permille == self.swing_permille,
    {
        TrackConfig { transpose: crate::clamp_i8(transpose, -48, 48), ..self }
    }

    /// Set the swing amount in thousandths, clamped to 0..=1000.
    pub fn with_swing(self, swing_permille: u16) -> (r: Self)
        ensures
            r.swing_permille == crate::spec_clamp(swing_permille as int, 0, 1000),
            r.name@ == self.name@,
            r.channel == self.channel,
            r.transpose == self.transpose,
    {
        TrackConfig { swing_permille: crate::clamp_u16(swing_permille, 0, 1000), ..self }
    }
}

/// What the track pipeline makes of one event: transpose, then the note
/// window, then velocity scale and offset clamped into 1..=127, then the
/// track's channel. `None` when the transposed note leaves the MIDI range
/// or the window.
pub open spec fn spec_process_event(config: TrackConfig, event: MidiEvent)
    -> Option<MidiEvent> {
    let transposed = event.note + config.transpose;
    if transposed < 0 || transposed > 127 {
        None
    } else if transposed < config.note_min || transposed > config.note_max {
        None
    } else {
        let scaled = event.velocity * config.velocity_scale_permille / 1000
            + config.velocity_offset;
        Some(MidiEvent {
            note: transposed as u8,
            velocity: crate::spec_clamp(scaled, 1, 127) as u8,
            channel: config.channel,
            ..event
        })
    }
}

/// The swing-adjusted start tick: a tick in the second half of its beat
/// is delayed by half a beat scaled by half the swing amount.
pub open spec fn spec_apply_swing(config: TrackConfig, tick: int, ppqn: int) -> int {
    if config.swing_permille == 0 || ppqn <= 0 {
        tick
    } else {
        let half_beat = ppqn / 2;
        let tick_in_beat = tick % ppqn;
        if tick_in_beat >= half_beat {
            tick + half_beat * config.swing_permille / 2000
        } else {
            tick
        }
    }
}

/// The events that survive the track pipeline, each transformed by
/// `spec_process_event`, in their order.
pub open spec fn spec_surviving(events: Seq<MidiEvent>, config: TrackConfig)
    -> Seq<MidiEvent>
    decreases events.len(),
{
    if events.len() == 0 {
        Seq::empty()
    } else {
        let rest = spec_surviving(events.drop_last(), config);
        match spec_process_event(config, events.last()) {
            Some(p) => rest.push(p),
            None => rest,
        }
    }
}

/// Each event with its start tick swung, the tick first capped so swing
/// cannot push it past the 64-bit limit.
pub open spec fn spec_swing_all(events: Seq<MidiEvent>, config: TrackConfig, ppqn: int)
    -> Seq<MidiEvent>
    decreases events.len(),
{
    if events.len() == 0 {
        Seq::empty()
    } else {
        let e = events.last();
        let capped = if e.start_tick <= u64::MAX - ppqn {
            e.start_tick as int
        } else {
            u64::MAX - ppqn
        };
        spec_swing_all(events.drop_last(), config, ppqn).push(MidiEvent {
            start_tick: spec_apply_swing(config, capped, ppqn) as u64,
            ..e
        })
    }
}

/// The whole per-event track pipeline: process each event, then swing
/// the survivors.
pub open spec fn spec_track_pipeline(events: Seq<MidiEvent>, config: TrackConfig,
    ppqn: int) -> Seq<MidiEvent> {
    spec_swing_all(spec_surviving(events, config), config, ppqn)
}

/// A sequencer track
pub struct Track {
    /// Track configuration
    config: TrackConfig,
    /// Current state
    state: TrackState,
    /// Active clip index (if any)
    active_clip: Option<usize>,
    /// Clips assigned to this track
    clips: Vec<Clip>,
    /// Generator for this track (if any)
    generator: Option<GeneratorKind>,
    /// Track index (for identification)
    index: usize,
}

impl Track {
    /// The configuration.
    pub closed spec fn spec_config(self) -> TrackConfig {
        self.config
    }

    /// The mute/solo state.
    pub closed spec fn spec_state(self) -> TrackState {
        self.state
    }

    /// The active clip index, if any.
    pub closed spec fn spec_active_clip(self) -> Option<usize> {
        self.active_clip
    }

    /// The clips.
    pub closed spec fn spec_clips(self) -> Seq<Clip> {
        self.clips@
    }

    /// Whether a generator is attached.
    pub closed spec fn spec_has_generator(self) -> bool {
        self.generator is Some
    }

    /// The track index.
    pub closed spec fn spec_index(self) -> int {
        self.index as int
    }

    /// Configuration in range, the active clip index inside the clips,
    /// and well-formed clips and generator.
    pub open spec fn wf(self) -> bool {
        &&& self.spec_config().wf()
        &&& match self.spec_active_clip() {
            Some(i) => i < self.spec_clips().len(),
            None => true,
        }
        &&& clips_ok(self.spec_clips())
        &&& match self.spec_generator() {
            Some(g) => g.wf(),
            None => true,
        }
    }

    /// The attached generator.
    pub closed spec fn spec_generator(self) -> Option<GeneratorKind> {
        self.generator
    }

    /// Create a new track
    pub fn new(index: usize, config: TrackConfig) -> (r: Self)
        requires
            config.wf(),
        ensures
            r.wf(),
            r.spec_config() == config,
            r.spec_state() == TrackState::Active,
            r.spec_active_clip() is None,
            r.spec_clips().len() == 0,
            !r.spec_has_generator(),
            r.spec_index() == index,
    {
        let r = Self {
            config,
            state: TrackState::Active,
            active_clip: None,
            clips: Vec::new(),
            generator: None,
            index,
        };
        proof {
            assert(clips_ok(r.spec_clips()));
        }
        r
    }

    /// Get track name
    pub fn name(&self) -> (r: &str)
        ensures
            r@ == self.spec_config().name@,
    {
        self.config.name.as_str()
    }

    /// Get MIDI channel
    pub fn channel(&self) -> (r: u8)
        ensures
            r == self.spec_config().channel,
    {
        self.config.channel
    }

    /// Set MIDI channel, capped at 15.
    pub fn set_channel(&mut self, channel: u8)
        requires
            old(self).wf(),
        ensures
            final(self).wf(),
            final(self).spec_config().channel == crate::spec_clamp(channel as int, 0, 15),
            final(self).spec_state() == old(self).spec_state(),
    {
        self.config.channel = crate::clamp_u8(channel, 0, 15);
    }

    /// Get transpose
    pub fn transpose(&self) -> (r: i8)
        ensures
            r == self.spec_config().transpose,
    {
        self.config.transpose
    }

    /// Set transpose, clamped to -48..=48.
    pub fn set_transpose(&mut self, transpose: i8)
        requires
            old(self).wf(),
        ensures
            final(self).wf(),
            final(self).spec_config().transpose == crate::spec_clamp(transpose as int, -48, 48),
            final(self).spec_state() == old(self).spec_state(),
    {
        self.config.transpose = crate::clamp_i8(transpose, -48, 48);
    }

    /// Get swing in thousandths
    pub fn swing_permille(&self) -> (r: u16)
        ensures
            r == self.spec_config().swing_permille,
    {
        self.config.swing_permille
    }

    /// Set swing in thousandths, clamped to 0..=1000.
    pub fn set_swing_permille(&mut self, swing_permille: u16)
        requires
            old(self).wf(),
        ensures
            final(self).wf(),
            final(self).spec_config().swing_permille
                == crate::spec_clamp(swing_permille as int, 0, 1000),
            final(self).spec_state() == old(self).spec_state(),
    {
        self.config.swing_permille = crate::clamp_u16(swing_permille, 0, 1000);
    }

    /// Get current state
    pub fn state(&self) -> (r: TrackState)
        ensures
            r == self.spec_state(),
    {
        self.state
    }

    /// Set state
    pub fn set_state(&mut self, state: TrackState)
        requires
            old(self).wf(),
        ensures
            final(self).wf(),
            final(self).spec_state() == state,
    {
        self.state = state;
    }

    /// Check if track is muted
    pub fn is_muted(&self) -> (r: bool)
        ensures
            r == (self.spec_state() == TrackState::Muted),
    {
        self.state == TrackState::Muted
    }

    /// Check if track is soloed
    pub fn is_soloed(&self) -> (r: bool)
        ensures
            r == (self.spec_state() == TrackState::Soloed),
    {
        self.state == TrackState::Soloed
    }

    /// Toggle mute: a muted track becomes active, any other state mutes.
    pub fn toggle_mute(&mut self)
        requires
            old(self).wf(),
        ensures
            final(self).wf(),
            final(self).spec_state() == if old(self).spec_state() == TrackState::Muted {
                TrackState::Active
            } else {
                TrackState::Muted
            },
    {
        self.state = if self.state == TrackState::Muted {
            TrackState::Active
        } else {
            TrackState::Muted
        };
    }

    /// Toggle solo: a soloed track becomes active, any other state soloes.
    pub fn toggle_solo(&mut self)
        requires
            old(self).wf(),
        ensures
            final(self).wf(),
            final(self).spec_state() == if old(self).spec_state() == TrackState::Soloed {
                TrackState::Active
            } else {
                TrackState::Soloed
            },
    {
        self.state = if self.state == TrackState::Soloed {
            TrackState::Active
        } else {
            TrackState::Soloed
        };
    }

    /// Get track index
    pub fn index(&self) -> (r: usize)
        ensures
            r == self.spec_index(),
    {
        self.index
    }

    /// Set the generator for this track
    pub fn set_generator(&mut self, generator: GeneratorKind)
        requires
            old(self).wf(),
            generator.wf(),
        ensures
            final(self).wf(),
            final(self).spec_has_generator(),
    {
        self.generator = Some(generator);
    }

    /// Clear the generator
    pub fn clear_generator(&mut self)
        requires
            old(self).wf(),
        ensures
            final(self).wf(),
            !final(self).spec_has_generator(),
    {
        self.generator = None;
    }

    /// Add a clip to this track, returning its index.
    pub fn add_clip(&mut self, clip: Clip) -> (r: usize)
        requires
            old(self).wf(),
            clip.wf(),
        ensures
            final(self).wf(),
            final(self).spec_clips().len() == old(self).spec_clips().len() + 1,
            r == old(self).spec_clips().len(),
    {
        let ghost before = self.clips@;
        self.clips.push(clip);
        proof {
            assert forall|i: int| 0 <= i < self.clips@.len()
                implies (#[trigger] self.clips@[i]).wf() by {
                if i < before.len() {
                    assert(self.clips@[i] == before[i]);
                }
            }
        }
        self.clips.len() - 1
    }

    /// Get number of clips
    pub fn clip_count(&self) -> (r: usize)
        ensures
            r == self.spec_clips().len(),
    {
        self.clips.len()
    }

    /// Set the active clip; an out-of-range index is ignored, `None`
    /// deactivates.
    pub fn set_active_clip(&mut self, index: Option<usize>)
        requires
            old(self).wf(),
        ensures
            final(self).wf(),
            match index {
                Some(idx) => final(self).spec_active_clip()
                    == if idx < old(self).spec_clips().len() {
                        Some(idx)
                    } else {
                        old(self).spec_active_clip()
                    },
                None => final(self).spec_active_clip() is None,
            },
    {
        match index {
            Some(idx) => {
                if idx < self.clips.len() {
                    self.active_clip = Some(idx);
                }
            },
            None => {
                self.active_clip = None;
            },
        }
    }

    /// Get active clip index
    pub fn active_clip_index(&self) -> (r: Option<usize>)
        ensures
            r == self.spec_active_clip(),
    {
        self.active_clip
    }

    /// Run one event through the track pipeline.
    fn process_event(&self, event: MidiEvent) -> (r: Option<MidiEvent>)
        requires
            self.spec_config().wf(),
        ensures
            r == spec_process_event(self.spec_config(), event),
    {
        // Apply transpose
        let transposed: i16 = event.note as i16 + self.config.transpose as i16;
        if transposed < 0 || transposed > 127 {
            return None;  // Note out of range
        }
        let note = transposed as u8;

        // Apply the note range filter
        if note < self.config.note_min || note > self.config.note_max {
            return None;
        }

        // Apply velocity scaling and offset
        proof {
            vstd::arithmetic::mul::lemma_mul_nonnegative(
                event.velocity as int, self.spec_config().velocity_scale_permille as int);
            vstd::arithmetic::mul::lemma_mul_upper_bound(
                event.velocity as int, 255, self.spec_config().velocity_scale_permille as int,
                2000);
        }
        let scaled: i32 = (event.velocity as i32 * self.config.velocity_scale_permille as i32)
            / 1000 + self.config.velocity_offset as i32;
        let velocity = crate::clamp_i32(scaled, 1, 127) as u8;

        // Route to the track's channel
        Some(MidiEvent { note, velocity, channel: self.config.channel, ..event })
    }

    /// Apply swing to a tick position.
    fn apply_swing(&self, tick: u64, ppqn: u32) -> (r: u64)
        requires
            self.spec_config().wf(),
            ppqn >= 1,
            tick + ppqn <= u64::MAX,
        ensures
            r == spec_apply_swing(self.spec_config(), tick as int, ppqn as int),
    {
        if self.config.swing_permille == 0 {
            return tick;
        }

        let beat_ticks = ppqn as u64;
        let half_beat = beat_ticks / 2;
        let tick_in_beat = tick % beat_ticks;

        // Swing delays the off-beat half of each beat
        if tick_in_beat >= half_beat {
            proof {
                let hb = half_beat as int;
                let sw = self.spec_config().swing_permille as int;
                vstd::arithmetic::mul::lemma_mul_nonnegative(hb, sw);
                assert(hb * sw <= hb * 2000) by (nonlinear_arith)
                    requires sw <= 2000 && hb >= 0;
                vstd::arithmetic::div_mod::lemma_div_is_ordered(hb * sw, hb * 2000, 2000);
                vstd::arithmetic::div_mod::lemma_div_by_multiple(hb, 2000);
            }
            let swing_offset = (half_beat * self.config.swing_permille as u64) / 2000;
            tick + swing_offset
        } else {
            tick
        }
    }

    /// Generate events for this track: the generator's output, then the
    /// active clip's, each run through the pipeline, with swing applied to
    /// the survivors. A muted track emits nothing.
    pub fn generate(&mut self, context: &GeneratorContext) -> (r: Vec<MidiEvent>)
        requires
            old(self).wf(),
            context.wf(),
            context.ppqn >= 1,
        ensures
            final(self).wf(),
            final(self).spec_config() == old(self).spec_config(),
            final(self).spec_state() == old(self).spec_state(),
            final(self).spec_index() == old(self).spec_index(),
            old(self).spec_state() == TrackState::Muted ==> r@.len() == 0
                && *final(self) == *old(self),
            forall|i: int| 0 <= i < r@.len() ==> (#[trigger] r@[i]).channel
                == old(self).spec_config().channel
                && 1 <= r@[i].velocity <= 127
                && old(self).spec_config().note_min <= r@[i].note
                && r@[i].note <= old(self).spec_config().note_max,
            // Whatever the sources handed over, the output is exactly
            // their events run through the track pipeline.
            old(self).spec_state() != TrackState::Muted
                ==> exists|src: Seq<MidiEvent>| r@ == spec_track_pipeline(src,
                    old(self).spec_config(), context.ppqn as int),
            old(self).spec_state() != TrackState::Muted
                && old(self).spec_generator() is None
                && old(self).spec_active_clip() is None
                ==> r@.len() == 0,
            // With no generator and a forward-playing sequenced clip the
            // source is the clip's window, so the output is pinned.
            old(self).spec_state() != TrackState::Muted
                && old(self).spec_generator() is None
                && (match old(self).spec_active_clip() {
                    Some(ci) => ci < old(self).spec_clips().len()
                        && old(self).spec_clips()[ci as int].spec_type()
                            == ClipType::Sequenced
                        && (old(self).spec_clips()[ci as int].spec_state()
                                == ClipState::Playing
                            || old(self).spec_clips()[ci as int].spec_state()
                                == ClipState::Stopping)
                        && !old(self).spec_clips()[ci as int].spec_reverse(),
                    None => false,
                })
                ==> ({
                    let clip = old(self).spec_clips()[
                        old(self).spec_active_clip()->0 as int];
                    r@ == spec_track_pipeline(spec_window_events(clip.spec_notes(),
                        clip.spec_position(),
                        crate::spec_sat_add(clip.spec_position(),
                            context.ticks_to_generate as int),
                        clip.spec_loop_start(), clip.spec_loop_end()),
                        old(self).spec_config(), context.ppqn as int)
                }),
    {
        // A muted track produces no output.
        if self.state == TrackState::Muted {
            return Vec::new();
        }

        let mut events: Vec<MidiEvent> = Vec::new();
        let ghost cfg = self.spec_config();
        let ghost mut src: Seq<MidiEvent> = Seq::empty();

        // Generate from the generator if present
        let mut held = None;
        std::mem::swap(&mut held, &mut self.generator);
        match held {
            Some(mut g) => {
                let generated = g.generate(context);
                self.generator = Some(g);
                let n = generated.len();
                let mut i: usize = 0;
                while i < n
                    invariant
                        0 <= i <= n,
                        n == generated@.len(),
                        self.wf(),
                        self.spec_config() == cfg,
                        cfg.wf(),
                        processed_ok(events@, cfg),
                        events@ == spec_surviving(generated@.take(i as int), cfg),
                    decreases n - i,
                {
                    match self.process_event(generated[i]) {
                        Some(processed) => {
                            events.push(processed);
                        },
                        None => {},
                    }
                    proof {
                        assert(generated@.take(i as int + 1).drop_last()
                            =~= generated@.take(i as int));
                        assert(generated@.take(i as int + 1).last()
                            == generated@[i as int]);
                    }
                    i = i + 1;
                }
                proof {
                    assert(generated@.take(n as int) =~= generated@);
                    src = generated@;
                }
            },
            None => {},
        }
        proof {
            assert(events@ == spec_surviving(src, cfg));
        }

        // Generate from the active clip if present
        match self.active_clip {
            Some(clip_idx) => {
                if clip_idx < self.clips.len() {
                    let ghost clips_before = self.clips@;
                    let mut clip = self.clips.swap_remove(clip_idx);
                    let clip_events = clip.generate(context);
                    // Put the clip back where it was.
                    self.clips.push(clip);
                    let last = self.clips.len() - 1;
                    let moved = self.clips.swap_remove(clip_idx);
                    self.clips.push(moved);
                    proof {
                        assert forall|k: int| 0 <= k < self.clips@.len()
                            implies (#[trigger] self.clips@[k]).wf() by {
                        }
                    }
                    let n = clip_events.len();
                    let ghost src_before = src;
                    let mut i: usize = 0;
                    while i < n
                        invariant
                            0 <= i <= n,
                            n == clip_events@.len(),
                            self.wf(),
                            self.spec_config() == cfg,
                            cfg.wf(),
                            processed_ok(events@, cfg),
                            events@ == spec_surviving(
                                src_before + clip_events@.take(i as int), cfg),
                        decreases n - i,
                    {
                        match self.process_event(clip_events[i]) {
                            Some(processed) => {
                                events.push(processed);
                            },
                            None => {},
                        }
                        proof {
                            assert((src_before + clip_events@.take(i as int + 1))
                                .drop_last()
                                =~= src_before + clip_events@.take(i as int));
                            assert((src_before + clip_events@.take(i as int + 1)).last()
                                == clip_events@[i as int]);
                        }
                        i = i + 1;
                    }
                    proof {
                        assert(src_before + clip_events@.take(n as int)
                            =~= src_before + clip_events@);
                        src = src_before + clip_events@;
                    }
                }
            },
            None => {},
        }
        proof {
            assert(events@ == spec_surviving(src, cfg));
        }

        // Apply swing to the surviving events
        let n = events.len();
        let mut swung: Vec<MidiEvent> = Vec::new();
        let mut i: usize = 0;
        while i < n
            invariant
                0 <= i <= n,
                n == events@.len(),
                self.wf(),
                self.spec_config() == cfg,
                cfg.wf(),
                context.ppqn >= 1,
                processed_ok(events@, cfg),
                processed_ok(swung@, cfg),
                swung@ == spec_swing_all(events@.take(i as int), cfg,
                    context.ppqn as int),
            decreases n - i,
        {
            let ev = events[i];
            let tick = if ev.start_tick <= u64::MAX - context.ppqn as u64 {
                ev.start_tick
            } else {
                u64::MAX - context.ppqn as u64
            };
            let new_tick = self.apply_swing(tick, context.ppqn);
            swung.push(MidiEvent { start_tick: new_tick, ..ev });
            proof {
                assert(events@.take(i as int + 1).drop_last()
                    =~= events@.take(i as int));
                assert(events@.take(i as int + 1).last() == events@[i as int]);
            }
            i = i + 1;
        }
        proof {
            assert(events@.take(n as int) =~= events@);
            assert(swung@ == spec_track_pipeline(src, cfg, context.ppqn as int));
        }

        swung
    }

    /// Pair each generated event into a NoteOn at `base_tick` plus its
    /// offset and a NoteOff one duration later, both on the track. A muted
    /// track schedules nothing.
    pub fn generate_scheduled(&mut self, context: &GeneratorContext, base_tick: u64)
        -> (r: Vec<ScheduledEvent>)
        requires
            old(self).wf(),
            context.wf(),
            context.ppqn >= 1,
        ensures
            final(self).wf(),
            final(self).spec_config() == old(self).spec_config(),
            final(self).spec_state() == old(self).spec_state(),
            final(self).spec_index() == old(self).spec_index(),
            r@.len() % 2 == 0,
            paired_on_off(r@, old(self).spec_index() as usize),
            old(self).spec_state() == TrackState::Muted ==> r@.len() == 0,
            // The result pairs exactly the pipeline's output, so every
            // NoteOff falls one duration after its NoteOn.
            old(self).spec_state() != TrackState::Muted
                ==> exists|src: Seq<MidiEvent>| r@ == spec_pair_events(
                    spec_track_pipeline(src, old(self).spec_config(),
                        context.ppqn as int),
                    base_tick as int, old(self).spec_index() as usize),
            // With no generator and a forward-playing sequenced clip the
            // whole schedule is pinned from the clip's window.
            old(self).spec_state() != TrackState::Muted
                && old(self).spec_generator() is None
                && (match old(self).spec_active_clip() {
                    Some(ci) => ci < old(self).spec_clips().len()
                        && old(self).spec_clips()[ci as int].spec_type()
                            == ClipType::Sequenced
                        && (old(self).spec_clips()[ci as int].spec_state()
                                == ClipState::Playing
                            || old(self).spec_clips()[ci as int].spec_state()
                                == ClipState::Stopping)
                        && !old(self).spec_clips()[ci as int].spec_reverse(),
                    None => false,
                })
                ==> ({
                    let clip = old(self).spec_clips()[
                        old(self).spec_active_clip()->0 as int];
                    r@ == spec_pair_events(spec_track_pipeline(
                        spec_window_events(clip.spec_notes(), clip.spec_position(),
                            crate::spec_sat_add(clip.spec_position(),
                                context.ticks_to_generate as int),
                            clip.spec_loop_start(), clip.spec_loop_end()),
                        old(self).spec_config(), context.ppqn as int),
                        base_tick as int, old(self).spec_index() as usize)
                }),
    {
        let events = self.generate(context);
        pair_events(&events, base_tick, self.index)
    }

    /// Reset the track: the generator and every clip return to their
    /// fresh playing state.
    pub fn reset(&mut self)
        requires
            old(self).wf(),
        ensures
            final(self).wf(),
            final(self).spec_config() == old(self).spec_config(),
            final(self).spec_state() == old(self).spec_state(),
    {
        let mut held = None;
        std::mem::swap(&mut held, &mut self.generator);
        match held {
            Some(mut g) => {
                g.reset();
                self.generator = Some(g);
            },
            None => {},
        }
        let n = self.clips.len();
        let mut i: usize = 0;
        while i < n
            invariant
                0 <= i <= n,
                n == self.clips@.len(),
                self.wf(),
                self.spec_config() == old(self).spec_config(),
                self.spec_state() == old(self).spec_state(),
            decreases n - i,
        {
            let ghost before = self.clips@;
            let mut clip = self.clips.swap_remove(i);
            clip.reset();
            self.clips.push(clip);
            let moved = self.clips.swap_remove(i);
            self.clips.push(moved);
            proof {
                assert forall|k: int| 0 <= k < self.clips@.len()
                    implies (#[trigger] self.clips@[k]).wf() by {
                }
            }
            i = i + 1;
        }
    }
}

/// Every clip well-formed.
pub open spec fn clips_ok(clips: Seq<Clip>) -> bool {
    forall|i: int| 0 <= i < clips.len() ==> (#[trigger] clips[i]).wf()
}

/// Every event carries the track's channel, a clamped velocity, and a
/// note inside the track's window.
pub open spec fn processed_ok(events: Seq<MidiEvent>, config: TrackConfig) -> bool {
    forall|i: int| 0 <= i < events.len() ==> (#[trigger] events[i]).channel == config.channel
        && 1 <= events[i].velocity <= 127
        && config.note_min <= events[i].note <= config.note_max
}

/// Consecutive pairs of a NoteOn and its NoteOff: same channel and note,
/// the off one duration after the on, both tagged with the track.
pub open spec fn paired_on_off(r: Seq<ScheduledEvent>, track_index: usize) -> bool {
    forall|k: int| 0 <= k < r.len() / 2 ==> {
        &&& (#[trigger] r[2 * k]).message_type == MidiMessageType::NoteOn
        &&& r[2 * k + 1].message_type == MidiMessageType::NoteOff
        &&& r[2 * k + 1].channel == r[2 * k].channel
        &&& r[2 * k + 1].data1 == r[2 * k].data1
        &&& r[2 * k].time_ticks <= r[2 * k + 1].time_ticks
        &&& r[2 * k].track_index == Some(track_index)
        &&& r[2 * k + 1].track_index == Some(track_index)
    }
}

/// The scheduled pairing of a list of events: for each, in order, a
/// NoteOn at `base_tick` plus its offset and a NoteOff one duration
/// later (both saturating at the 64-bit limit), tagged with the track.
pub open spec fn spec_pair_events(events: Seq<MidiEvent>, base_tick: int,
    track_index: usize) -> Seq<ScheduledEvent>
    decreases events.len(),
{
    if events.len() == 0 {
        Seq::empty()
    } else {
        let e = events.last();
        let on_tick = crate::spec_sat_add(base_tick, e.start_tick as int);
        let off_tick = crate::spec_sat_add(on_tick, e.duration_ticks as int);
        spec_pair_events(events.drop_last(), base_tick, track_index)
            .push(ScheduledEvent {
                time_micros: 0,
                time_ticks: on_tick as u64,
                channel: e.channel,
                message_type: MidiMessageType::NoteOn,
                data1: e.note,
                data2: e.velocity,
                track_index: Some(track_index),
            })
            .push(ScheduledEvent {
                time_micros: 0,
                time_ticks: off_tick as u64,
                channel: e.channel,
                message_type: MidiMessageType::NoteOff,
                data1: e.note,
                data2: 0,
                track_index: Some(track_index),
            })
    }
}

/// Pair each event into a NoteOn at `base_tick` plus its offset and a
/// NoteOff one duration later (both saturating at the 64-bit limit), with
/// the same channel and note, tagged with the track.
pub fn pair_events(events: &Vec<MidiEvent>, base_tick: u64, track_index: usize)
    -> (r: Vec<ScheduledEvent>)
    ensures
        r@ == spec_pair_events(events@, base_tick as int, track_index),
        r@.len() == 2 * events@.len(),
        paired_on_off(r@, track_index),
        forall|k: int| 0 <= k < events@.len() ==> {
            &&& (#[trigger] r@[2 * k]).data1 == events@[k].note
            &&& r@[2 * k].data2 == events@[k].velocity
            &&& r@[2 * k].channel == events@[k].channel
            &&& r@[2 * k].time_ticks == crate::spec_sat_add(
                base_tick as int, events@[k].start_tick as int)
            &&& r@[2 * k + 1].time_ticks == crate::spec_sat_add(
                crate::spec_sat_add(base_tick as int, events@[k].start_tick as int),
                events@[k].duration_ticks as int)
        },
{
    let mut scheduled: Vec<ScheduledEvent> = Vec::new();
    let n = events.len();
    let mut i: usize = 0;
    while i < n
        invariant
            0 <= i <= n,
            n == events@.len(),
            scheduled@.len() == 2 * i,
            scheduled@ == spec_pair_events(events@.take(i as int),
                base_tick as int, track_index),
            paired_on_off(scheduled@, track_index),
            forall|k: int| 0 <= k < i ==> {
                &&& (#[trigger] scheduled@[2 * k]).data1 == events@[k].note
                &&& scheduled@[2 * k].data2 == events@[k].velocity
                &&& scheduled@[2 * k].channel == events@[k].channel
                &&& scheduled@[2 * k].time_ticks == crate::spec_sat_add(
                    base_tick as int, events@[k].start_tick as int)
                &&& scheduled@[2 * k + 1].time_ticks == crate::spec_sat_add(
                    crate::spec_sat_add(base_tick as int, events@[k].start_tick as int),
                    events@[k].duration_ticks as int)
            },
        decreases n - i,
    {
        let event = events[i];
        let start_tick = if base_tick <= u64::MAX - event.start_tick {
            base_tick + event.start_tick
        } else {
            u64::MAX
        };
        let end_tick = if start_tick <= u64::MAX - event.duration_ticks {
            start_tick + event.duration_ticks
        } else {
            u64::MAX
        };

        // Note on
        scheduled.push(
            ScheduledEvent::note_on(start_tick, event.channel, event.note, event.velocity)
                .with_track(track_index),
        );

        // Note off
        scheduled.push(
            ScheduledEvent::note_off(end_tick, event.channel, event.note)
                .with_track(track_index),
        );

        proof {
            assert(events@.take(i as int + 1).drop_last() =~= events@.take(i as int));
            assert(events@.take(i as int + 1).last() == events@[i as int]);
        }
        i = i + 1;
    }
    proof {
        assert(events@.take(n as int) =~= events@);
    }
    scheduled
}

/// Manager for multiple tracks with solo handling
pub struct TrackManager {
    tracks: Vec<Track>,
    /// Whether any track is soloed
    has_solo: bool,
}

/// One output block per track of `m`, in order: an empty block for a
/// track that should not sound, and for one that should, its source
/// events `srcs[k]` run through the track pipeline and paired; `r` is
/// the blocks in sequence.
pub open spec fn spec_blocks_of(m: TrackManager, parts: Seq<Seq<ScheduledEvent>>,
    srcs: Seq<Seq<MidiEvent>>, r: Seq<ScheduledEvent>, base_tick: int,
    ppqn: int) -> bool {
    &&& parts.len() == m.spec_tracks().len()
    &&& srcs.len() == m.spec_tracks().len()
    &&& r == parts.flatten()
    &&& forall|k: int| 0 <= k < parts.len() && !m.spec_should_output(k)
        ==> (#[trigger] parts[k]).len() == 0
    &&& forall|k: int| 0 <= k < parts.len() ==> paired_on_off(#[trigger] parts[k],
        m.spec_tracks()[k].spec_index() as usize)
    &&& forall|k: int| 0 <= k < parts.len() && m.spec_should_output(k)
        ==> #[trigger] parts[k] == spec_pair_events(
            spec_track_pipeline(srcs[k], m.spec_tracks()[k].spec_config(), ppqn),
            base_tick, m.spec_tracks()[k].spec_index() as usize)
}

impl TrackManager {
    /// The tracks.
    pub closed spec fn spec_tracks(self) -> Seq<Track> {
        self.tracks@
    }

    /// The cached any-soloed flag.
    pub closed spec fn spec_has_solo(self) -> bool {
        self.has_solo
    }

    /// Whether some track is soloed.
    pub open spec fn spec_any_soloed(self) -> bool {
        exists|i: int| 0 <= i < self.spec_tracks().len()
            && (#[trigger] self.spec_tracks()[i]).spec_state() == TrackState::Soloed
    }

    /// Whether a track's events reach the output: it exists, is not
    /// muted, and is soloed whenever any track is.
    pub open spec fn spec_should_output(self, index: int) -> bool {
        &&& 0 <= index < self.spec_tracks().len()
        &&& self.spec_tracks()[index].spec_state() != TrackState::Muted
        &&& self.spec_any_soloed()
            ==> self.spec_tracks()[index].spec_state() == TrackState::Soloed
    }

    /// Every track well-formed and the solo flag in step with the tracks.
    pub open spec fn wf(self) -> bool {
        &&& forall|i: int| 0 <= i < self.spec_tracks().len()
            ==> (#[trigger] self.spec_tracks()[i]).wf()
        &&& self.spec_has_solo() == self.spec_any_soloed()
    }

    /// Create a new track manager
    pub fn new() -> (r: Self)
        ensures
            r.wf(),
            r.spec_tracks().len() == 0,
    {
        Self { tracks: Vec::new(), has_solo: false }
    }

    /// Add a track with the given configuration, returning its index.
    pub fn add_track(&mut self, config: TrackConfig) -> (r: usize)
        requires
            old(self).wf(),
            config.wf(),
        ensures
            final(self).wf(),
            final(self).spec_tracks().len() == old(self).spec_tracks().len() + 1,
            r == old(self).spec_tracks().len(),
            final(self).spec_tracks()[r as int].spec_state() == TrackState::Active,
    {
        let index = self.tracks.len();
        let ghost before = self.tracks@;
        self.tracks.push(Track::new(index, config));
        proof {
            assert forall|i: int| 0 <= i < self.tracks@.len()
                implies (#[trigger] self.tracks@[i]).wf() by {
                if i < before.len() {
                    assert(self.tracks@[i] == before[i]);
                }
            }
            assert(self.spec_any_soloed() == old(self).spec_any_soloed()) by {
                if old(self).spec_any_soloed() {
                    let w = choose|w: int| 0 <= w < before.len()
                        && (#[trigger] before[w]).spec_state() == TrackState::Soloed;
                    assert(self.tracks@[w].spec_state() == TrackState::Soloed);
                }
                if self.spec_any_soloed() {
                    let w = choose|w: int| 0 <= w < self.tracks@.len()
                        && (#[trigger] self.tracks@[w]).spec_state() == TrackState::Soloed;
                    assert(w < before.len());
                    assert(before[w].spec_state() == TrackState::Soloed);
                }
            }
        }
        index
    }

    /// Get number of tracks
    pub fn track_count(&self) -> (r: usize)
        ensures
            r == self.spec_tracks().len(),
    {
        self.tracks.len()
    }

    /// The state of a track, `None` past the end.
    pub fn track_state(&self, index: usize) -> (r: Option<TrackState>)
        ensures
            match r {
                Some(st) => index < self.spec_tracks().len()
                    && st == self.spec_tracks()[index as int].spec_state(),
                None => index >= self.spec_tracks().len(),
            },
    {
        if index < self.tracks.len() {
            Some(self.tracks[index].state())
        } else {
            None
        }
    }

    /// Recompute the cached solo flag.
    fn update_solo_state(&mut self)
        requires
            forall|i: int| 0 <= i < old(self).spec_tracks().len()
                ==> (#[trigger] old(self).spec_tracks()[i]).wf(),
        ensures
            final(self).spec_tracks() == old(self).spec_tracks(),
            final(self).wf(),
    {
        let n = self.tracks.len();
        let mut any = false;
        let mut i: usize = 0;
        while i < n
            invariant
                0 <= i <= n,
                n == self.spec_tracks().len(),
                self.spec_tracks() == old(self).spec_tracks(),
                any == exists|j: int| 0 <= j < i
                    && (#[trigger] self.spec_tracks()[j]).spec_state() == TrackState::Soloed,
            decreases n - i,
        {
            if self.tracks[i].is_soloed() {
                any = true;
            }
            i = i + 1;
        }
        self.has_solo = any;
    }

    /// Set a track's state and refresh solo handling; an index past the
    /// end is ignored.
    pub fn set_track_state(&mut self, index: usize, state: TrackState)
        requires
            old(self).wf(),
        ensures
            final(self).wf(),
            final(self).spec_tracks().len() == old(self).spec_tracks().len(),
            index < old(self).spec_tracks().len()
                ==> final(self).spec_tracks()[index as int].spec_state() == state,
    {
        if index < self.tracks.len() {
            let ghost before = self.tracks@;
            let mut track = self.tracks.swap_remove(index);
            track.set_state(state);
            self.tracks.push(track);
            let moved = self.tracks.swap_remove(index);
            self.tracks.push(moved);
            proof {
                assert(self.tracks@.len() == before.len());
                assert forall|i: int| 0 <= i < self.tracks@.len()
                    implies (#[trigger] self.tracks@[i]).wf() by {
                }
            }
            self.update_solo_state();
        }
    }

    /// Toggle mute for a track; an index past the end is ignored.
    pub fn toggle_mute(&mut self, index: usize)
        requires
            old(self).wf(),
        ensures
            final(self).wf(),
            final(self).spec_tracks().len() == old(self).spec_tracks().len(),
            index < old(self).spec_tracks().len()
                ==> final(self).spec_tracks()[index as int].spec_state()
                    == (if old(self).spec_tracks()[index as int].spec_state()
                        == TrackState::Muted {
                        TrackState::Active
                    } else {
                        TrackState::Muted
                    }),
    {
        if index < self.tracks.len() {
            let current = self.tracks[index].state();
            let next = if current == TrackState::Muted {
                TrackState::Active
            } else {
                TrackState::Muted
            };
            self.set_track_state(index, next);
        }
    }

    /// Toggle solo for a track; an index past the end is ignored.
    pub fn toggle_solo(&mut self, index: usize)
        requires
            old(self).wf(),
        ensures
            final(self).wf(),
            final(self).spec_tracks().len() == old(self).spec_tracks().len(),
            index < old(self).spec_tracks().len()
                ==> final(self).spec_tracks()[index as int].spec_state()
                    == (if old(self).spec_tracks()[index as int].spec_state()
                        == TrackState::Soloed {
                        TrackState::Active
                    } else {
                        TrackState::Soloed
                    }),
    {
        if index < self.tracks.len() {
            let current = self.tracks[index].state();
            let next = if current == TrackState::Soloed {
                TrackState::Active
            } else {
                TrackState::Soloed
            };
            self.set_track_state(index, next);
        }
    }

    /// Whether track `index` routes output: never when it is muted or
    /// missing; when any track is soloed, exactly the soloed tracks route;
    /// else every unmuted track routes.
    pub fn should_output(&self, index: usize) -> (r: bool)
        requires
            self.wf(),
        ensures
            r == self.spec_should_output(index as int),
    {
        if index >= self.tracks.len() {
            return false;
        }
        if self.tracks[index].is_muted() {
            return false;
        }
        if self.has_solo {
            return self.tracks[index].is_soloed();
        }
        true
    }

    /// Generate scheduled events from every track that routes output.
    #[verifier::rlimit(8)]
    pub fn generate_all(&mut self, context: &GeneratorContext, base_tick: u64)
        -> (r: Vec<ScheduledEvent>)
        requires
            old(self).wf(),
            context.wf(),
            context.ppqn >= 1,
        ensures
            final(self).wf(),
            final(self).spec_tracks().len() == old(self).spec_tracks().len(),
            // The output is one block per track, in order: an empty block
            // for every track that should not sound, and for every one
            // that should, its sources' events run through the track
            // pipeline and paired into note ons and offs.
            exists|parts: Seq<Seq<ScheduledEvent>>, srcs: Seq<Seq<MidiEvent>>|
                spec_blocks_of(*old(self), parts, srcs, r@, base_tick as int,
                    context.ppqn as int),
    {
        let mut all_events: Vec<ScheduledEvent> = Vec::new();
        let ghost mut parts: Seq<Seq<ScheduledEvent>> = Seq::empty();
        let ghost mut srcs: Seq<Seq<MidiEvent>> = Seq::empty();
        let n = self.tracks.len();
        let mut i: usize = 0;
        while i < n
            invariant
                0 <= i <= n,
                n == self.spec_tracks().len(),
                self.wf(),
                context.wf(),
                context.ppqn >= 1,
                self.spec_has_solo() == old(self).spec_has_solo(),
                forall|k: int| 0 <= k < n
                    ==> (#[trigger] self.spec_tracks()[k]).spec_state()
                        == old(self).spec_tracks()[k].spec_state(),
                forall|k: int| 0 <= k < n
                    ==> (#[trigger] self.spec_tracks()[k]).spec_config()
                        == old(self).spec_tracks()[k].spec_config(),
                forall|k: int| 0 <= k < n
                    ==> (#[trigger] self.spec_tracks()[k]).spec_index()
                        == old(self).spec_tracks()[k].spec_index(),
                parts.len() == i,
                srcs.len() == i,
                all_events@ == parts.flatten(),
                forall|k: int| 0 <= k < i && !old(self).spec_should_output(k)
                    ==> (#[trigger] parts[k]).len() == 0,
                forall|k: int| 0 <= k < i ==> paired_on_off(#[trigger] parts[k],
                    old(self).spec_tracks()[k].spec_index() as usize),
                forall|k: int| 0 <= k < i && old(self).spec_should_output(k)
                    ==> #[trigger] parts[k] == spec_pair_events(
                        spec_track_pipeline(srcs[k],
                            old(self).spec_tracks()[k].spec_config(),
                            context.ppqn as int),
                        base_tick as int,
                        old(self).spec_tracks()[k].spec_index() as usize),
            decreases n - i,
        {
            proof {
                assert(self.spec_any_soloed() == old(self).spec_any_soloed()) by {
                    if self.spec_any_soloed() {
                        let w = choose|w: int| 0 <= w < self.spec_tracks().len()
                            && (#[trigger] self.spec_tracks()[w]).spec_state()
                                == TrackState::Soloed;
                        assert(old(self).spec_tracks()[w].spec_state()
                            == TrackState::Soloed);
                    }
                    if old(self).spec_any_soloed() {
                        let w = choose|w: int| 0 <= w < old(self).spec_tracks().len()
                            && (#[trigger] old(self).spec_tracks()[w]).spec_state()
                                == TrackState::Soloed;
                        assert(self.spec_tracks()[w].spec_state()
                            == TrackState::Soloed);
                    }
                }
                assert(self.spec_tracks()[i as int].spec_state()
                    == old(self).spec_tracks()[i as int].spec_state());
            }
            if self.should_output(i) {
                let ghost before = self.tracks@;
                let mut track = self.tracks.swap_remove(i);
                let events = track.generate_scheduled(context, base_tick);
                self.tracks.push(track);
                let moved = self.tracks.swap_remove(i);
                self.tracks.push(moved);
                proof {
                    assert forall|k: int| 0 <= k < self.tracks@.len()
                        implies (#[trigger] self.tracks@[k]).wf() by {
                    }
                    assert forall|k: int| 0 <= k < self.tracks@.len()
                        implies (#[trigger] self.tracks@[k]).spec_state()
                            == before[k].spec_state() by {
                    }
                    assert forall|k: int| 0 <= k < self.tracks@.len()
                        implies (#[trigger] self.tracks@[k]).spec_config()
                            == before[k].spec_config() by {
                    }
                    assert forall|k: int| 0 <= k < self.tracks@.len()
                        implies (#[trigger] self.tracks@[k]).spec_index()
                            == before[k].spec_index() by {
                    }
                    assert(self.spec_has_solo() == self.spec_any_soloed()) by {
                        if self.spec_any_soloed() {
                            let w = choose|w: int| 0 <= w < self.tracks@.len()
                                && (#[trigger] self.tracks@[w]).spec_state()
                                    == TrackState::Soloed;
                            assert(before[w].spec_state() == TrackState::Soloed);
                        }
                        if exists|w: int| 0 <= w < before.len()
                            && (#[trigger] before[w]).spec_state() == TrackState::Soloed {
                            let w = choose|w: int| 0 <= w < before.len()
                                && (#[trigger] before[w]).spec_state() == TrackState::Soloed;
                            assert(self.tracks@[w].spec_state() == TrackState::Soloed);
                        }
                    }
                }
                let ghost prev = all_events@;
                let m = events.len();
                let mut j: usize = 0;
                while j < m
                    invariant
                        0 <= j <= m,
                        m == events@.len(),
                        all_events@ == prev + events@.take(j as int),
                    decreases m - j,
                {
                    all_events.push(events[j]);
                    proof {
                        assert(prev + events@.take(j as int + 1)
                            =~= (prev + events@.take(j as int)).push(events@[j as int]));
                    }
                    j = j + 1;
                }
                proof {
                    assert(events@.take(m as int) =~= events@);
                    parts.lemma_flatten_push(events@);
                    assert(before[i as int].spec_state() != TrackState::Muted);
                    let cfgk = old(self).spec_tracks()[i as int].spec_config();
                    let idxk = old(self).spec_tracks()[i as int].spec_index() as usize;
                    assert(before[i as int].spec_config() == cfgk);
                    assert(before[i as int].spec_index() as usize == idxk);
                    let src = choose|src: Seq<MidiEvent>| events@ == spec_pair_events(
                        spec_track_pipeline(src, cfgk, context.ppqn as int),
                        base_tick as int, idxk);
                    assert(events@ == spec_pair_events(
                        spec_track_pipeline(src, cfgk, context.ppqn as int),
                        base_tick as int, idxk));
                    parts = parts.push(events@);
                    srcs = srcs.push(src);
                }
            } else {
                proof {
                    parts.lemma_flatten_push(Seq::<ScheduledEvent>::empty());
                    parts = parts.push(Seq::empty());
                    srcs = srcs.push(Seq::empty());
                    assert(parts.flatten() =~= all_events@);
                    assert(!old(self).spec_should_output(i as int));
                }
            }
            i = i + 1;
        }
        proof {
            assert(spec_blocks_of(*old(self), parts, srcs, all_events@,
                base_tick as int, context.ppqn as int));
        }
        all_events
    }

    /// Reset every track.
    pub fn reset_all(&mut self)
        requires
            old(self).wf(),
        ensures
            final(self).wf(),
            final(self).spec_tracks().len() == old(self).spec_tracks().len(),
    {
        let n = self.tracks.len();
        let mut i: usize = 0;
        while i < n
            invariant
                0 <= i <= n,
                n == self.spec_tracks().len(),
                self.wf(),
            decreases n - i,
        {
            let ghost before = self.tracks@;
            let mut track = self.tracks.swap_remove(i);
            track.reset();
            self.tracks.push(track);
            let moved = self.tracks.swap_remove(i);
            self.tracks.push(moved);
            proof {
                assert forall|k: int| 0 <= k < self.tracks@.len()
                    implies (#[trigger] self.tracks@[k]).wf() by {
                }
                assert forall|k: int| 0 <= k < self.tracks@.len()
                    implies (#[trigger] self.tracks@[k]).spec_state()
                        == before[k].spec_state() by {
                }
                assert(self.spec_has_solo() == self.spec_any_soloed()) by {
                    if self.spec_any_soloed() {
                        let w = choose|w: int| 0 <= w < self.tracks@.len()
                            && (#[trigger] self.tracks@[w]).spec_state() == TrackState::Soloed;
                        assert(before[w].spec_state() == TrackState::Soloed);
                    }
                    if exists|w: int| 0 <= w < before.len()
                        && (#[trigger] before[w]).spec_state() == TrackState::Soloed {
                        let w = choose|w: int| 0 <= w < before.len()
                            && (#[trigger] before[w]).spec_state() == TrackState::Soloed;
                        assert(self.tracks@[w].spec_state() == TrackState::Soloed);
                    }
                }
            }
            i = i + 1;
        }
    }
}

} // verus!
