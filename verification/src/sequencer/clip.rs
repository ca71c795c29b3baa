//! Clip system for sequenced and generated content.
//!
//! Provides clips that can contain static sequences, generate content
//! in real-time, or combine both approaches. While a clip plays, its
//! position advances window by window; a looped clip's position is always
//! the initial position plus the window total, wrapped into the loop.

use vstd::prelude::*;

use crate::generators::{GeneratorContext, GeneratorKind, MidiEvent};

verus! {

/// Clip playback state
#[derive(Debug, Clone, Copy, PartialEq, Eq, Structural)]
pub enum ClipState {
    /// Clip is stopped
    Stopped,
    /// Clip is playing
    Playing,
    /// Clip is queued to start
    Queued,
    /// Clip is stopping (playing until end)
    Stopping,
}

/// Clip playback mode
#[derive(Debug, Clone, Copy, PartialEq, Eq, Structural)]
pub enum ClipMode {
    /// Play once and stop
    OneShot,
    /// Loop continuously
    Loop,
    /// Loop a specified number of times
    LoopCount(u32),
    /// Ping-pong (forward then backward)
    PingPong,
}

/// A note event within a clip
#[derive(Debug, Clone, Copy, PartialEq, Eq, Structural)]
pub struct ClipNote {
    /// Start position in ticks from clip start
    pub start_tick: u64,
    /// Duration in ticks
    pub duration: u64,
    /// MIDI note number
    pub note: u8,
    /// Velocity
    pub velocity: u8,
}

impl ClipNote {
    /// Create a new clip note
    pub fn new(start_tick: u64, duration: u64, note: u8, velocity: u8) -> (r: Self)
        ensures
            r == (ClipNote { start_tick, duration, note, velocity }),
    {
        Self { start_tick, duration, note, velocity }
    }

    /// Convert to MidiEvent
    pub fn to_midi_event(&self) -> (r: MidiEvent)
        ensures
            r == (MidiEvent {
                note: self.note,
                velocity: self.velocity,
                start_tick: self.start_tick,
                duration_ticks: self.duration,
                channel: 0,
            }),
    {
        MidiEvent::new(self.note, self.velocity, self.start_tick, self.duration)
    }
}

/// Clip type - static, generated, or hybrid
#[derive(Debug, Clone, Copy, PartialEq, Eq, Structural)]
pub enum ClipType {
    /// Static sequence of notes
    Sequenced,
    /// Real-time generated content
    Generated,
    /// Static sequence with generated variations
    Hybrid,
}

/// The events a window of static notes produces when playing forward:
/// exactly the notes whose start lies inside the loop and inside
/// `[start, end)`, kept in order, shifted to be relative to `start`.
pub open spec fn spec_window_events(notes: Seq<ClipNote>, start: int, end: int,
    loop_start: int, loop_end: int) -> Seq<MidiEvent> {
    notes.filter(|n: ClipNote| loop_start <= n.start_tick < loop_end
            && start <= n.start_tick < end)
        .map_values(|n: ClipNote| MidiEvent {
            note: n.note,
            velocity: n.velocity,
            start_tick: (n.start_tick - start) as u64,
            duration_ticks: n.duration,
            channel: 0,
        })
}

/// The position after a window of `ticks` in Loop mode: the offset into
/// the loop advances by the window and wraps by the loop length.
pub open spec fn spec_loop_advance(position: int, ticks: int, loop_start: int, loop_end: int)
    -> int {
    let len = loop_end - loop_start;
    loop_start + (position - loop_start + ticks) % len
}

/// A clip containing musical content
pub struct Clip {
    /// Clip name
    name: String,
    /// Clip type
    clip_type: ClipType,
    /// Playback mode
    mode: ClipMode,
    /// Current playback state
    state: ClipState,
    /// Length in ticks
    length_ticks: u64,
    /// Loop start point in ticks
    loop_start: u64,
    /// Loop end point in ticks (0 = use length)
    loop_end: u64,
    /// Static notes (for Sequenced and Hybrid)
    notes: Vec<ClipNote>,
    /// Generator (for Generated and Hybrid)
    generator: Option<GeneratorKind>,
    /// Current position in ticks (relative to clip start)
    position: u64,
    /// Number of times looped
    loop_count: u32,
    /// Variation amount for hybrid mode, in thousandths (0..=1000)
    variation_permille: u16,
    /// Whether playing in reverse (for ping-pong)
    reverse: bool,
    /// Random source for hybrid variation
    rng: rand::rngs::StdRng,
}

impl Clip {
    /// The clip's name.
    pub closed spec fn spec_name(self) -> Seq<char> {
        self.name@
    }

    /// The clip's kind.
    pub closed spec fn spec_type(self) -> ClipType {
        self.clip_type
    }

    /// The playback mode.
    pub closed spec fn spec_mode(self) -> ClipMode {
        self.mode
    }

    /// The playback state.
    pub closed spec fn spec_state(self) -> ClipState {
        self.state
    }

    /// The clip length in ticks.
    pub closed spec fn spec_length(self) -> int {
        self.length_ticks as int
    }

    /// The loop start in ticks.
    pub closed spec fn spec_loop_start(self) -> int {
        self.loop_start as int
    }

    /// The raw loop end in ticks (zero stands for the clip length).
    pub closed spec fn spec_loop_end_raw(self) -> int {
        self.loop_end as int
    }

    /// The effective loop end: the clip length when the raw end is zero.
    pub open spec fn spec_loop_end(self) -> int {
        if self.spec_loop_end_raw() == 0 {
            self.spec_length()
        } else {
            self.spec_loop_end_raw()
        }
    }

    /// The static notes.
    pub closed spec fn spec_notes(self) -> Seq<ClipNote> {
        self.notes@
    }

    /// Whether a generator is attached.
    pub closed spec fn spec_has_generator(self) -> bool {
        self.generator is Some
    }

    /// The current position in ticks.
    pub closed spec fn spec_position(self) -> int {
        self.position as int
    }

    /// The loop counter.
    pub closed spec fn spec_loop_count(self) -> int {
        self.loop_count as int
    }

    /// The reverse flag.
    pub closed spec fn spec_reverse(self) -> bool {
        self.reverse
    }

    /// The hybrid variation amount in thousandths.
    pub closed spec fn spec_variation(self) -> int {
        self.variation_permille as int
    }

    /// Loop points ordered inside the clip, the position inside the loop
    /// while playing, and a well-formed generator.
    pub open spec fn wf(self) -> bool {
        &&& self.spec_loop_end_raw() <= self.spec_length()
        &&& self.spec_loop_start() <= self.spec_length()
        &&& (self.spec_loop_end_raw() != 0
            ==> self.spec_loop_start() <= self.spec_loop_end_raw())
        &&& (self.spec_state() == ClipState::Playing || self.spec_state() == ClipState::Stopping)
            && self.spec_loop_start() < self.spec_loop_end()
            ==> self.spec_loop_start() <= self.spec_position() < self.spec_loop_end()
        &&& self.spec_variation() <= 1000
        &&& match self.spec_generator() {
            Some(g) => g.wf(),
            None => true,
        }
    }

    /// The attached generator.
    pub closed spec fn spec_generator(self) -> Option<GeneratorKind> {
        self.generator
    }

    /// Create a new empty sequenced clip in Loop mode.
    pub fn new(name: String, length_ticks: u64) -> (r: Self)
        ensures
            r.wf(),
            r.spec_name() == name@,
            r.spec_type() == ClipType::Sequenced,
            r.spec_mode() == ClipMode::Loop,
            r.spec_state() == ClipState::Stopped,
            r.spec_length() == length_ticks,
            r.spec_loop_start() == 0,
            r.spec_loop_end_raw() == 0,
            r.spec_notes().len() == 0,
            !r.spec_has_generator(),
            r.spec_position() == 0,
            r.spec_loop_count() == 0,
            !r.spec_reverse(),
    {
        Self {
            name,
            clip_type: ClipType::Sequenced,
            mode: ClipMode::Loop,
            state: ClipState::Stopped,
            length_ticks,
            loop_start: 0,
            loop_end: 0,
            notes: Vec::new(),
            generator: None,
            position: 0,
            loop_count: 0,
            variation_permille: 0,
            reverse: false,
            rng: crate::rng::fresh_rng(),
        }
    }

    /// Create a generated clip in Loop mode, one default bar long.
    pub fn generated(name: String, generator: GeneratorKind) -> (r: Self)
        requires
            generator.wf(),
        ensures
            r.wf(),
            r.spec_name() == name@,
            r.spec_type() == ClipType::Generated,
            r.spec_state() == ClipState::Stopped,
            r.spec_length() == 96,
            r.spec_has_generator(),
            r.spec_position() == 0,
    {
        Self {
            name,
            clip_type: ClipType::Generated,
            mode: ClipMode::Loop,
            state: ClipState::Stopped,
            length_ticks: 96,  // Default to 1 bar
            loop_start: 0,
            loop_end: 0,
            notes: Vec::new(),
            generator: Some(generator),
            position: 0,
            loop_count: 0,
            variation_permille: 0,
            reverse: false,
            rng: crate::rng::fresh_rng(),
        }
    }

    /// Create a hybrid clip: static notes always sound, generated events
    /// join with the given probability (in thousandths, clamped).
    pub fn hybrid(name: String, length_ticks: u64, generator: GeneratorKind,
        variation_permille: u16) -> (r: Self)
        requires
            generator.wf(),
        ensures
            r.wf(),
            r.spec_name() == name@,
            r.spec_type() == ClipType::Hybrid,
            r.spec_state() == ClipState::Stopped,
            r.spec_length() == length_ticks,
            r.spec_has_generator(),
            r.spec_variation() == crate::spec_clamp(variation_permille as int, 0, 1000),
    {
        Self {
            name,
            clip_type: ClipType::Hybrid,
            mode: ClipMode::Loop,
            state: ClipState::Stopped,
            length_ticks,
            loop_start: 0,
            loop_end: 0,
            notes: Vec::new(),
            generator: Some(generator),
            position: 0,
            loop_count: 0,
            variation_permille: crate::clamp_u16(variation_permille, 0, 1000),
            reverse: false,
            rng: crate::rng::fresh_rng(),
        }
    }

    /// Get clip name
    pub fn name(&self) -> (r: &str)
        ensures
            r@ == self.spec_name(),
    {
        self.name.as_str()
    }

    /// Get clip type
    pub fn clip_type(&self) -> (r: ClipType)
        ensures
            r == self.spec_type(),
    {
        self.clip_type
    }

    /// Get playback mode
    pub fn mode(&self) -> (r: ClipMode)
        ensures
            r == self.spec_mode(),
    {
        self.mode
    }

    /// Set playback mode
    pub fn set_mode(&mut self, mode: ClipMode)
        requires
            old(self).wf(),
        ensures
            final(self).wf(),
            final(self).spec_mode() == mode,
            final(self).spec_position() == old(self).spec_position(),
            final(self).spec_state() == old(self).spec_state(),
    {
        self.mode = mode;
    }

    /// Get current state
    pub fn state(&self) -> (r: ClipState)
        ensures
            r == self.spec_state(),
    {
        self.state
    }

    /// Get length in ticks
    pub fn length(&self) -> (r: u64)
        ensures
            r == self.spec_length(),
    {
        self.length_ticks
    }

    /// Set loop points; both ends clamp to the clip length and an
    /// inverted pair collapses to its start.
    pub fn set_loop_points(&mut self, start: u64, end: u64)
        requires
            old(self).wf(),
        ensures
            final(self).wf(),
            final(self).spec_loop_start() == if start as int <= final(self).spec_loop_end_raw()
                || end == 0 {
                crate::spec_clamp(start as int, 0, old(self).spec_length())
            } else {
                final(self).spec_loop_end_raw()
            },
            final(self).spec_length() == old(self).spec_length(),
    {
        let new_start = if start < self.length_ticks { start } else { self.length_ticks };
        let new_end = if end == 0 {
            0
        } else if end < self.length_ticks {
            end
        } else {
            self.length_ticks
        };
        // Keep the pair ordered
        let new_start = if new_end != 0 && new_start > new_end { new_end } else { new_start };
        self.loop_start = new_start;
        self.loop_end = new_end;
        // The position may now lie outside the loop; pull it back in when
        // playing.
        if (self.state == ClipState::Playing || self.state == ClipState::Stopping) {
            let le = if self.loop_end == 0 { self.length_ticks } else { self.loop_end };
            if self.loop_start < le
                && (self.position < self.loop_start || self.position >= le) {
                self.position = self.loop_start;
            }
        }
    }

    /// Add a note to the clip, keeping the notes sorted by start tick.
    pub fn add_note(&mut self, note: ClipNote)
        requires
            old(self).wf(),
        ensures
            final(self).wf(),
            final(self).spec_notes().to_multiset()
                == old(self).spec_notes().to_multiset().insert(note),
            final(self).spec_notes().len() == old(self).spec_notes().len() + 1,
            final(self).spec_position() == old(self).spec_position(),
    {
        let n = self.notes.len();
        let mut pos: usize = 0;
        while pos < n && self.notes[pos].start_tick <= note.start_tick
            invariant
                0 <= pos <= n,
                n == self.notes@.len(),
            decreases n - pos,
        {
            pos = pos + 1;
        }
        let ghost before = self.notes@;
        self.notes.insert(pos, note);
        proof {
            lemma_clip_note_insert_to_multiset(before, pos as int, note);
        }
    }

    /// Get all notes
    pub fn notes(&self) -> (r: &[ClipNote])
        ensures
            r@ == self.spec_notes(),
    {
        self.notes.as_slice()
    }

    /// Clear all notes
    pub fn clear_notes(&mut self)
        requires
            old(self).wf(),
        ensures
            final(self).wf(),
            final(self).spec_notes().len() == 0,
    {
        self.notes.clear();
    }

    /// Get number of notes
    pub fn note_count(&self) -> (r: usize)
        ensures
            r == self.spec_notes().len(),
    {
        self.notes.len()
    }

    /// Set the generator
    pub fn set_generator(&mut self, generator: GeneratorKind)
        requires
            old(self).wf(),
            generator.wf(),
        ensures
            final(self).wf(),
            final(self).spec_has_generator(),
    {
        self.generator = Some(generator);
    }

    /// Clear the generator
    pub fn clear_generator(&mut self)
        requires
            old(self).wf(),
        ensures
            final(self).wf(),
            !final(self).spec_has_generator(),
    {
        self.generator = None;
    }

    /// Get current position
    pub fn position(&self) -> (r: u64)
        ensures
            r == self.spec_position(),
    {
        self.position
    }

    /// Get loop count
    pub fn loop_count(&self) -> (r: u32)
        ensures
            r == self.spec_loop_count(),
    {
        self.loop_count
    }

    /// Start playback; the position is pulled into the loop if it lies
    /// outside it.
    pub fn play(&mut self)
        requires
            old(self).wf(),
        ensures
            final(self).wf(),
            final(self).spec_state() == ClipState::Playing,
    {
        self.state = ClipState::Playing;
        let le = if self.loop_end == 0 { self.length_ticks } else { self.loop_end };
        if self.loop_start < le
            && (self.position < self.loop_start || self.position >= le) {
            self.position = self.loop_start;
        }
    }

    /// Stop playback and rewind.
    pub fn stop(&mut self)
        requires
            old(self).wf(),
        ensures
            final(self).wf(),
            final(self).spec_state() == ClipState::Stopped,
            final(self).spec_position() == 0,
            final(self).spec_loop_count() == 0,
            !final(self).spec_reverse(),
    {
        self.state = ClipState::Stopped;
        self.position = 0;
        self.loop_count = 0;
        self.reverse = false;
    }

    /// Queue for playback
    pub fn queue(&mut self)
        requires
            old(self).wf(),
        ensures
            final(self).wf(),
            final(self).spec_state() == ClipState::Queued,
            final(self).spec_position() == old(self).spec_position(),
    {
        self.state = ClipState::Queued;
    }

    /// Mark as stopping (play until the end of the loop).
    pub fn stop_at_end(&mut self)
        requires
            old(self).wf(),
        ensures
            final(self).wf(),
            old(self).spec_state() == ClipState::Playing
                ==> final(self).spec_state() == ClipState::Stopping,
            old(self).spec_state() != ClipState::Playing ==> *final(self) == *old(self),
    {
        if self.state == ClipState::Playing {
            self.state = ClipState::Stopping;
        }
    }

    /// Check if clip is playing
    pub fn is_playing(&self) -> (r: bool)
        ensures
            r == (self.spec_state() == ClipState::Playing
                || self.spec_state() == ClipState::Stopping),
    {
        self.state == ClipState::Playing || self.state == ClipState::Stopping
    }

    /// Reset clip state: position, loop counter and direction rewind, the
    /// clip stops, and an embedded generator returns to its fresh state.
    pub fn reset(&mut self)
        requires
            old(self).wf(),
        ensures
            final(self).wf(),
            final(self).spec_state() == ClipState::Stopped,
            final(self).spec_position() == 0,
            final(self).spec_loop_count() == 0,
            !final(self).spec_reverse(),
            final(self).spec_notes() == old(self).spec_notes(),
            final(self).spec_has_generator() == old(self).spec_has_generator(),
    {
        self.position = 0;
        self.loop_count = 0;
        self.reverse = false;
        self.state = ClipState::Stopped;
        match &mut self.generator {
            Some(g) => g.reset(),
            None => {},
        }
    }

    /// Static notes that fall in the window `[position, position+ticks)`,
    /// mirrored about the loop end when playing in reverse, as events
    /// relative to the window start.
    fn generate_sequenced(&mut self, ticks: u64) -> (r: Vec<MidiEvent>)
        requires
            old(self).wf(),
        ensures
            final(self).wf(),
            *final(self) == *old(self),
            !old(self).spec_reverse() ==> r@ == spec_window_events(
                old(self).spec_notes(),
                old(self).spec_position(),
                crate::spec_sat_add(old(self).spec_position(), ticks as int),
                old(self).spec_loop_start(),
                old(self).spec_loop_end()),
    {
        let mut events: Vec<MidiEvent> = Vec::new();
        let start = self.position;
        let end = if start <= u64::MAX - ticks { start + ticks } else { u64::MAX };
        let loop_end = if self.loop_end == 0 { self.length_ticks } else { self.loop_end };

        let ghost pred = |n: ClipNote| self.spec_loop_start() <= n.start_tick
            && n.start_tick < self.spec_loop_end()
            && start as int <= n.start_tick && n.start_tick < end as int;
        let ghost to_event = |n: ClipNote| MidiEvent {
            note: n.note,
            velocity: n.velocity,
            start_tick: (n.start_tick - start as int) as u64,
            duration_ticks: n.duration,
            channel: 0,
        };
        proof {
            reveal(Seq::filter);
            assert(self.notes@.take(0) =~= Seq::<ClipNote>::empty());
            assert(events@ =~= self.notes@.take(0).filter(pred).map_values(to_event));
        }

        let n = self.notes.len();
        let mut i: usize = 0;
        while i < n
            invariant
                0 <= i <= n,
                n == self.notes@.len(),
                !self.spec_reverse() ==> events@
                    == self.notes@.take(i as int).filter(pred).map_values(to_event),
            decreases n - i,
        {
            let note = self.notes[i];
            // Mirror the start about the loop end when reversed
            let note_start = if self.reverse {
                if loop_end >= note.start_tick
                    && loop_end - note.start_tick >= note.duration {
                    loop_end - note.start_tick - note.duration
                } else {
                    note.start_tick
                }
            } else {
                note.start_tick
            };

            if note_start >= self.loop_start && note_start < loop_end {
                if note_start >= start && note_start < end {
                    let relative_start = note_start - start;
                    events.push(MidiEvent::new(
                        note.note,
                        note.velocity,
                        relative_start,
                        note.duration,
                    ));
                }
            }
            proof {
                if !self.spec_reverse() {
                    let pre = self.notes@.take(i as int);
                    assert(self.notes@.take(i as int + 1)
                        =~= pre.push(self.notes@[i as int]));
                    pre.lemma_filter_push(self.notes@[i as int], pred);
                    if pred(self.notes@[i as int]) {
                        assert(events@ =~= pre.filter(pred).map_values(to_event)
                            .push(to_event(self.notes@[i as int])));
                        assert(pre.filter(pred).push(self.notes@[i as int])
                            .map_values(to_event)
                            =~= pre.filter(pred).map_values(to_event)
                                .push(to_event(self.notes@[i as int])));
                    }
                }
            }
            i = i + 1;
        }
        proof {
            assert(self.notes@.take(n as int) =~= self.notes@);
            if !self.spec_reverse() {
                let w_start = self.spec_position();
                let w_end = crate::spec_sat_add(self.spec_position(), ticks as int);
                let w_pred = |nt: ClipNote| self.spec_loop_start() <= nt.start_tick
                    < self.spec_loop_end() && w_start <= nt.start_tick < w_end;
                let w_map = |nt: ClipNote| MidiEvent {
                    note: nt.note,
                    velocity: nt.velocity,
                    start_tick: (nt.start_tick - w_start) as u64,
                    duration_ticks: nt.duration,
                    channel: 0,
                };
                assert(pred =~= w_pred);
                assert(to_event =~= w_map);
                assert(events@ =~= spec_window_events(self.spec_notes(),
                    w_start, w_end, self.spec_loop_start(), self.spec_loop_end()));
            }
        }

        events
    }

    /// Advance the position by one window, handling loop wrap, ping-pong
    /// reflection and one-shot stopping. In Loop mode the new position is
    /// the old one plus the window, wrapped into the loop.
    fn advance_position(&mut self, ticks: u64)
        requires
            old(self).wf(),
        ensures
            final(self).wf(),
            final(self).spec_notes() == old(self).spec_notes(),
            final(self).spec_mode() == old(self).spec_mode(),
            final(self).spec_loop_start() == old(self).spec_loop_start(),
            final(self).spec_loop_end() == old(self).spec_loop_end(),
            final(self).spec_length() == old(self).spec_length(),
            old(self).spec_mode() == ClipMode::Loop
                && old(self).spec_state() == ClipState::Playing
                && !old(self).spec_reverse()
                && old(self).spec_loop_start() <= old(self).spec_position()
                && old(self).spec_position() < old(self).spec_loop_end()
                && old(self).spec_position() + ticks <= u64::MAX
                ==> {
                    &&& final(self).spec_position() == spec_loop_advance(
                        old(self).spec_position(), ticks as int,
                        old(self).spec_loop_start(), old(self).spec_loop_end())
                    &&& final(self).spec_state() == ClipState::Playing
                    &&& !final(self).spec_reverse()
                    &&& final(self).spec_loop_count() == (
                        if old(self).spec_position() + ticks >= old(self).spec_loop_end() {
                            if old(self).spec_loop_count() < u32::MAX {
                                old(self).spec_loop_count() + 1
                            } else {
                                old(self).spec_loop_count()
                            }
                        } else {
                            old(self).spec_loop_count()
                        })
                },
            old(self).spec_mode() == ClipMode::PingPong
                && old(self).spec_state() == ClipState::Playing
                && !old(self).spec_reverse()
                && old(self).spec_loop_start() <= old(self).spec_position()
                && old(self).spec_position() < old(self).spec_loop_end()
                && old(self).spec_position() + ticks <= u64::MAX
                ==> {
                    let pos = old(self).spec_position();
                    let ls = old(self).spec_loop_start();
                    let le = old(self).spec_loop_end();
                    let advanced = pos + ticks;
                    if advanced < le {
                        &&& final(self).spec_position() == advanced
                        &&& !final(self).spec_reverse()
                        &&& final(self).spec_state() == ClipState::Playing
                        &&& final(self).spec_loop_count() == old(self).spec_loop_count()
                    } else {
                        let over = advanced - le;
                        let reflected = if over < le - ls { le - over } else { le };
                        let landed = if reflected >= le {
                            le - 1
                        } else if reflected < ls {
                            ls
                        } else {
                            reflected
                        };
                        &&& final(self).spec_position() == landed
                        &&& final(self).spec_reverse()
                        &&& final(self).spec_state() == ClipState::Playing
                        &&& final(self).spec_loop_count() == (
                            if old(self).spec_loop_count() < u32::MAX {
                                old(self).spec_loop_count() + 1
                            } else {
                                old(self).spec_loop_count()
                            })
                    }
                },
            old(self).spec_mode() == ClipMode::PingPong
                && old(self).spec_state() == ClipState::Playing
                && old(self).spec_reverse()
                && old(self).spec_loop_start() < old(self).spec_loop_end()
                && ticks <= old(self).spec_position()
                ==> {
                    let back = old(self).spec_position() - ticks;
                    &&& final(self).spec_position() == (
                        if back < old(self).spec_loop_start() {
                            old(self).spec_loop_start()
                        } else {
                            back
                        })
                    &&& final(self).spec_reverse()
                    &&& final(self).spec_state() == old(self).spec_state()
                    &&& final(self).spec_loop_count() == old(self).spec_loop_count()
                },
            old(self).spec_mode() == ClipMode::OneShot
                && old(self).spec_state() == ClipState::Playing
                && !old(self).spec_reverse()
                && old(self).spec_loop_start() <= old(self).spec_position()
                && old(self).spec_position() < old(self).spec_loop_end()
                && old(self).spec_position() + ticks <= u64::MAX
                ==> {
                    if old(self).spec_position() + ticks >= old(self).spec_loop_end() {
                        &&& final(self).spec_state() == ClipState::Stopped
                        &&& final(self).spec_position() == 0
                    } else {
                        &&& final(self).spec_state() == ClipState::Playing
                        &&& final(self).spec_position()
                            == old(self).spec_position() + ticks
                    }
                },
    {
        let loop_end = if self.loop_end == 0 { self.length_ticks } else { self.loop_end };
        if self.loop_start >= loop_end {
            // A degenerate loop has nowhere to go.
            return;
        }
        let loop_length = loop_end - self.loop_start;

        if self.reverse {
            if self.position < ticks {
                match self.mode {
                    ClipMode::PingPong => {
                        // Reached the start: bounce forward
                        self.reverse = false;
                        let over = ticks - self.position;
                        let bounced = if over <= loop_length {
                            self.loop_start + over
                        } else {
                            self.loop_start
                        };
                        self.position = if bounced < loop_end { bounced } else { self.loop_start };
                    },
                    _ => {
                        let back = ticks - self.position;
                        let wrapped = back % loop_length;
                        self.position = if wrapped == 0 {
                            self.loop_start
                        } else {
                            loop_end - wrapped
                        };
                    },
                }
            } else {
                self.position = self.position - ticks;
                if self.position < self.loop_start {
                    self.position = self.loop_start;
                }
            }
        } else {
            let advanced = if self.position <= u64::MAX - ticks {
                self.position + ticks
            } else {
                u64::MAX
            };
            if advanced >= loop_end {
                match self.mode {
                    ClipMode::OneShot => {
                        self.state = ClipState::Stopped;
                        self.position = 0;
                    },
                    ClipMode::Loop => {
                        self.position = self.loop_start
                            + ((advanced - self.loop_start) % loop_length);
                        self.loop_count = if self.loop_count < u32::MAX {
                            self.loop_count + 1
                        } else {
                            self.loop_count
                        };
                        proof {
                            if !old(self).spec_reverse()
                                && old(self).spec_state() == ClipState::Playing
                                && old(self).spec_loop_start() <= old(self).spec_position()
                                && old(self).spec_position() < old(self).spec_loop_end()
                                && old(self).spec_position() + ticks <= u64::MAX {
                                assert(advanced == old(self).spec_position() + ticks);
                            }
                        }
                    },
                    ClipMode::LoopCount(max_loops) => {
                        self.loop_count = if self.loop_count < u32::MAX {
                            self.loop_count + 1
                        } else {
                            self.loop_count
                        };
                        if self.loop_count >= max_loops {
                            self.state = ClipState::Stopped;
                            self.position = 0;
                        } else {
                            self.position = self.loop_start
                                + ((advanced - self.loop_start) % loop_length);
                        }
                    },
                    ClipMode::PingPong => {
                        // Reflect off the end
                        self.reverse = true;
                        let over = advanced - loop_end;
                        let reflected = if over < loop_length {
                            loop_end - over
                        } else {
                            loop_end
                        };
                        self.position = if reflected >= loop_end {
                            loop_end - 1
                        } else if reflected < self.loop_start {
                            self.loop_start
                        } else {
                            reflected
                        };
                        self.loop_count = if self.loop_count < u32::MAX {
                            self.loop_count + 1
                        } else {
                            self.loop_count
                        };
                    },
                }

                // A stopping clip halts once it wraps.
                if self.state == ClipState::Stopping {
                    self.state = ClipState::Stopped;
                    self.position = 0;
                }
            } else {
                self.position = advanced;
                proof {
                    if old(self).spec_mode() == ClipMode::Loop
                        && old(self).spec_state() == ClipState::Playing
                        && !old(self).spec_reverse()
                        && old(self).spec_loop_start() <= old(self).spec_position()
                        && old(self).spec_position() < old(self).spec_loop_end()
                        && old(self).spec_position() + ticks <= u64::MAX {
                        let ls = old(self).spec_loop_start();
                        let le = old(self).spec_loop_end();
                        vstd::arithmetic::div_mod::lemma_small_mod(
                            (old(self).spec_position() - ls + ticks) as nat, (le - ls) as nat);
                    }
                }
            }
        }
    }

    /// Generate events for the window: static notes for a Sequenced clip,
    /// the generator's output for a Generated one, and for a Hybrid clip
    /// the static notes plus each generated event with the variation
    /// probability. The position then advances by the window.
    pub fn generate(&mut self, context: &GeneratorContext) -> (r: Vec<MidiEvent>)
        requires
            old(self).wf(),
            context.wf(),
        ensures
            final(self).wf(),
            old(self).spec_state() != ClipState::Playing
                && old(self).spec_state() != ClipState::Stopping ==> {
                &&& r@.len() == 0
                &&& final(self).spec_position() == old(self).spec_position()
            },
            final(self).spec_mode() == old(self).spec_mode(),
            final(self).spec_loop_start() == old(self).spec_loop_start(),
            final(self).spec_loop_end() == old(self).spec_loop_end(),
            // A forward-playing sequenced clip emits exactly its window's
            // notes, relative to the window start.
            (old(self).spec_state() == ClipState::Playing
                || old(self).spec_state() == ClipState::Stopping)
                && old(self).spec_type() == ClipType::Sequenced
                && !old(self).spec_reverse()
                ==> r@ == spec_window_events(
                    old(self).spec_notes(),
                    old(self).spec_position(),
                    crate::spec_sat_add(old(self).spec_position(),
                        context.ticks_to_generate as int),
                    old(self).spec_loop_start(),
                    old(self).spec_loop_end()),
            // A playing Loop clip stays playing and counts its wraps, so
            // window after window chains through this same clause.
            old(self).spec_state() == ClipState::Playing
                && old(self).spec_mode() == ClipMode::Loop
                && !old(self).spec_reverse()
                && old(self).spec_loop_start() <= old(self).spec_position()
                && old(self).spec_position() < old(self).spec_loop_end()
                && old(self).spec_position() + context.ticks_to_generate <= u64::MAX
                ==> {
                    &&& final(self).spec_position() == spec_loop_advance(
                        old(self).spec_position(), context.ticks_to_generate as int,
                        old(self).spec_loop_start(), old(self).spec_loop_end())
                    &&& final(self).spec_state() == ClipState::Playing
                    &&& !final(self).spec_reverse()
                    &&& final(self).spec_loop_count() == (
                        if old(self).spec_position() + context.ticks_to_generate
                            >= old(self).spec_loop_end() {
                            if old(self).spec_loop_count() < u32::MAX {
                                old(self).spec_loop_count() + 1
                            } else {
                                old(self).spec_loop_count()
                            }
                        } else {
                            old(self).spec_loop_count()
                        })
                },
            // A forward ping-pong window reflects off the loop end: the
            // clip turns reverse, lands mirrored about the end, and
            // counts the bounce.
            old(self).spec_state() == ClipState::Playing
                && old(self).spec_mode() == ClipMode::PingPong
                && !old(self).spec_reverse()
                && old(self).spec_loop_start() <= old(self).spec_position()
                && old(self).spec_position() < old(self).spec_loop_end()
                && old(self).spec_position() + context.ticks_to_generate <= u64::MAX
                ==> {
                    let pos = old(self).spec_position();
                    let ls = old(self).spec_loop_start();
                    let le = old(self).spec_loop_end();
                    let advanced = pos + context.ticks_to_generate;
                    if advanced < le {
                        &&& final(self).spec_position() == advanced
                        &&& !final(self).spec_reverse()
                        &&& final(self).spec_state() == ClipState::Playing
                        &&& final(self).spec_loop_count() == old(self).spec_loop_count()
                    } else {
                        let over = advanced - le;
                        let reflected = if over < le - ls { le - over } else { le };
                        let landed = if reflected >= le {
                            le - 1
                        } else if reflected < ls {
                            ls
                        } else {
                            reflected
                        };
                        &&& final(self).spec_position() == landed
                        &&& final(self).spec_reverse()
                        &&& final(self).spec_state() == ClipState::Playing
                        &&& final(self).spec_loop_count() == (
                            if old(self).spec_loop_count() < u32::MAX {
                                old(self).spec_loop_count() + 1
                            } else {
                                old(self).spec_loop_count()
                            })
                    }
                },
            // A reverse ping-pong window short of the start walks back.
            old(self).spec_state() == ClipState::Playing
                && old(self).spec_mode() == ClipMode::PingPong
                && old(self).spec_reverse()
                && old(self).spec_loop_start() < old(self).spec_loop_end()
                && context.ticks_to_generate <= old(self).spec_position()
                ==> {
                    let back = old(self).spec_position() - context.ticks_to_generate;
                    &&& final(self).spec_position() == (
                        if back < old(self).spec_loop_start() {
                            old(self).spec_loop_start()
                        } else {
                            back
                        })
                    &&& final(self).spec_reverse()
                    &&& final(self).spec_state() == ClipState::Playing
                    &&& final(self).spec_loop_count() == old(self).spec_loop_count()
                },
    {
        if self.state != ClipState::Playing && self.state != ClipState::Stopping {
            return Vec::new();
        }

        let ticks = context.ticks_to_generate;
        let mut events: Vec<MidiEvent>;

        match self.clip_type {
            ClipType::Sequenced => {
                events = self.generate_sequenced(ticks);
            },
            ClipType::Generated => {
                events = Vec::new();
                let mut held = None;
                std::mem::swap(&mut held, &mut self.generator);
                match held {
                    Some(mut g) => {
                        events = g.generate(context);
                        self.generator = Some(g);
                    },
                    None => {},
                }
            },
            ClipType::Hybrid => {
                // Static notes always sound ...
                events = self.generate_sequenced(ticks);
                // ... and generated events join with the variation odds.
                let mut held = None;
                std::mem::swap(&mut held, &mut self.generator);
                match held {
                    Some(mut g) => {
                        let generated = g.generate(context);
                        self.generator = Some(g);
                        let m = generated.len();
                        let mut i: usize = 0;
                        while i < m
                            invariant
                                0 <= i <= m,
                                m == generated@.len(),
                                self.wf(),
                                self.spec_position() == old(self).spec_position(),
                                self.spec_state() == old(self).spec_state(),
                                self.spec_mode() == old(self).spec_mode(),
                                self.spec_loop_start() == old(self).spec_loop_start(),
                                self.spec_loop_end_raw() == old(self).spec_loop_end_raw(),
                                self.spec_length() == old(self).spec_length(),
                                self.spec_reverse() == old(self).spec_reverse(),
                                self.spec_loop_count() == old(self).spec_loop_count(),
                            decreases m - i,
                        {
                            let roll = crate::rng::rand_permille(&mut self.rng);
                            if (roll as u16) < self.variation_permille {
                                events.push(generated[i]);
                            }
                            i = i + 1;
                        }
                    },
                    None => {},
                }
            },
        }

        // Advance position
        self.advance_position(ticks);

        events
    }
}

/// Inserting anywhere in a note sequence adds one copy to its multiset.
proof fn lemma_clip_note_insert_to_multiset(s: Seq<ClipNote>, i: int, a: ClipNote)
    requires
        0 <= i <= s.len(),
    ensures
        s.insert(i, a).to_multiset() == s.to_multiset().insert(a),
{
    broadcast use vstd::seq_lib::group_to_multiset_ensures;

    let t = s.insert(i, a);
    assert(t[i] == a);
    assert(t.remove(i) =~= s);
    assert(t.remove(i).to_multiset() =~= t.to_multiset().remove(a));
    assert(t.to_multiset().contains(a)) by {
        assert(t.contains(a));
    }
    assert(t.to_multiset() =~= s.to_multiset().insert(a));
}

} // verus!
