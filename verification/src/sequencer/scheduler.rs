//! Event scheduler with microsecond-precision timing.
//!
//! Provides a priority queue for timed MIDI events with lookahead
//! buffering and tempo change handling. The queue is a vector kept sorted
//! by `time_micros`; polling takes a sorted prefix, so the events any one
//! poll returns are nondecreasing in time.

use vstd::prelude::*;
use vstd::multiset::Multiset;

use crate::sequencer::{SequencerTiming, spec_ticks_to_micros};

verus! {

/// Type of MIDI message in a scheduled event
#[derive(Debug, Clone, Copy, PartialEq, Eq, Structural)]
pub enum MidiMessageType {
    /// Note on message
    NoteOn,
    /// Note off message
    NoteOff,
    /// Control change
    ControlChange,
    /// Program change
    ProgramChange,
    /// Pitch bend
    PitchBend,
}

/// A scheduled MIDI event
#[derive(Debug, Clone, Copy, PartialEq, Eq, Structural)]
pub struct ScheduledEvent {
    /// Time in microseconds from sequence start
    pub time_micros: u64,
    /// Time in ticks from sequence start
    pub time_ticks: u64,
    /// MIDI channel (0-15)
    pub channel: u8,
    /// Message type
    pub message_type: MidiMessageType,
    /// First data byte (note number, CC number, etc.)
    pub data1: u8,
    /// Second data byte (velocity, CC value, etc.)
    pub data2: u8,
    /// Source track index (for tracking origin)
    pub track_index: Option<usize>,
}

impl ScheduledEvent {
    /// Create a note on event
    pub fn note_on(time_ticks: u64, channel: u8, note: u8, velocity: u8) -> (r: Self)
        ensures
            r == (ScheduledEvent {
                time_micros: 0,
                time_ticks,
                channel,
                message_type: MidiMessageType::NoteOn,
                data1: note,
                data2: velocity,
                track_index: None,
            }),
    {
        Self {
            time_micros: 0,  // Will be calculated by scheduler
            time_ticks,
            channel,
            message_type: MidiMessageType::NoteOn,
            data1: note,
            data2: velocity,
            track_index: None,
        }
    }

    /// Create a note off event
    pub fn note_off(time_ticks: u64, channel: u8, note: u8) -> (r: Self)
        ensures
            r == (ScheduledEvent {
                time_micros: 0,
                time_ticks,
                channel,
                message_type: MidiMessageType::NoteOff,
                data1: note,
                data2: 0,
                track_index: None,
            }),
    {
        Self {
            time_micros: 0,
            time_ticks,
            channel,
            message_type: MidiMessageType::NoteOff,
            data1: note,
            data2: 0,
            track_index: None,
        }
    }

    /// Create a control change event
    pub fn control_change(time_ticks: u64, channel: u8, cc: u8, value: u8) -> (r: Self)
        ensures
            r == (ScheduledEvent {
                time_micros: 0,
                time_ticks,
                channel,
                message_type: MidiMessageType::ControlChange,
                data1: cc,
                data2: value,
                track_index: None,
            }),
    {
        Self {
            time_micros: 0,
            time_ticks,
            channel,
            message_type: MidiMessageType::ControlChange,
            data1: cc,
            data2: value,
            track_index: None,
        }
    }

    /// Create a program change event
    pub fn program_change(time_ticks: u64, channel: u8, program: u8) -> (r: Self)
        ensures
            r == (ScheduledEvent {
                time_micros: 0,
                time_ticks,
                channel,
                message_type: MidiMessageType::ProgramChange,
                data1: program,
                data2: 0,
                track_index: None,
            }),
    {
        Self {
            time_micros: 0,
            time_ticks,
            channel,
            message_type: MidiMessageType::ProgramChange,
            data1: program,
            data2: 0,
            track_index: None,
        }
    }

    /// Set the track index for this event
    pub fn with_track(self, track_index: usize) -> (r: Self)
        ensures
            r == (ScheduledEvent { track_index: Some(track_index), ..self }),
    {
        ScheduledEvent { track_index: Some(track_index), ..self }
    }

    /// The MIDI bytes of this event: status nibble with the channel in the
    /// low four bits, then one or two data bytes.
    pub open spec fn spec_midi_bytes(self) -> Seq<u8> {
        let status_base: u8 = match self.message_type {
            MidiMessageType::NoteOn => 0x90,
            MidiMessageType::NoteOff => 0x80,
            MidiMessageType::ControlChange => 0xB0,
            MidiMessageType::ProgramChange => 0xC0,
            MidiMessageType::PitchBend => 0xE0,
        };
        let status = status_base | self.channel;
        match self.message_type {
            MidiMessageType::ProgramChange => seq![status, self.data1],
            _ => seq![status, self.data1, self.data2],
        }
    }

    /// Convert to MIDI bytes
    pub fn to_midi_bytes(&self) -> (r: Vec<u8>)
        ensures
            r@ == self.spec_midi_bytes(),
    {
        let r: Vec<u8> = match self.message_type {
            MidiMessageType::NoteOn => vec![0x90 | self.channel, self.data1, self.data2],
            MidiMessageType::NoteOff => vec![0x80 | self.channel, self.data1, self.data2],
            MidiMessageType::ControlChange => vec![0xB0 | self.channel, self.data1, self.data2],
            MidiMessageType::ProgramChange => vec![0xC0 | self.channel, self.data1],
            MidiMessageType::PitchBend => {
                // Pitch bend uses two 7-bit values
                vec![0xE0 | self.channel, self.data1, self.data2]
            },
        };
        proof {
            assert(r@ =~= self.spec_midi_bytes());
        }
        r
    }
}

/// Configuration for the scheduler
#[derive(Debug, Clone, Copy, PartialEq, Eq, Structural)]
pub struct SchedulerConfig {
    /// Lookahead time in milliseconds
    pub lookahead_ms: u32,
    /// Buffer size for events
    pub buffer_size: usize,
}

impl Default for SchedulerConfig {
    /// 50 ms of lookahead and room for 1024 events.
    fn default() -> (r: Self)
        ensures
            r.lookahead_ms == 50,
            r.buffer_size == 1024,
    {
        Self { lookahead_ms: 50, buffer_size: 1024 }
    }
}

/// Events in nondecreasing `time_micros` order.
pub open spec fn sorted_by_time(q: Seq<ScheduledEvent>) -> bool {
    forall|i: int, j: int| 0 <= i < j < q.len()
        ==> #[trigger] q[i].time_micros <= #[trigger] q[j].time_micros
}

/// The event with its wallclock time recomputed from its tick time under
/// the given timing.
pub open spec fn stamp(e: ScheduledEvent, timing: SequencerTiming) -> ScheduledEvent {
    ScheduledEvent {
        time_micros: spec_ticks_to_micros(
            e.time_ticks as int, timing.tempo_milli_bpm as int, timing.ppqn as int) as u64,
        ..e
    }
}

/// Inserting anywhere in a sequence adds one copy to its multiset.
proof fn lemma_seq_insert_to_multiset(s: Seq<ScheduledEvent>, i: int, a: ScheduledEvent)
    requires
        0 <= i <= s.len(),
    ensures
        s.insert(i, a).to_multiset() == s.to_multiset().insert(a),
{
    broadcast use vstd::seq_lib::group_to_multiset_ensures;

    let t = s.insert(i, a);
    assert(t[i] == a);
    assert(t.remove(i) =~= s);
    assert(t.remove(i).to_multiset() =~= t.to_multiset().remove(a));
    assert(t.to_multiset().contains(a)) by {
        assert(t.contains(a));
    }
    assert(t.to_multiset() =~= s.to_multiset().insert(a));
}

/// Insert an event into a queue kept sorted by `time_micros`, after any
/// events with the same time.
fn insert_event_sorted(q: &mut Vec<ScheduledEvent>, ev: ScheduledEvent)
    requires
        sorted_by_time(old(q)@),
    ensures
        sorted_by_time(final(q)@),
        final(q)@.to_multiset() == old(q)@.to_multiset().insert(ev),
        final(q)@.len() == old(q)@.len() + 1,
        forall|j: int| 0 <= j < final(q)@.len()
            ==> #[trigger] final(q)@[j] == ev || old(q)@.contains(final(q)@[j]),
{
    let mut pos: usize = 0;
    while pos < q.len() && q[pos].time_micros <= ev.time_micros
        invariant
            0 <= pos <= q@.len(),
            q@ == old(q)@,
            forall|j: int| 0 <= j < pos ==> #[trigger] q@[j].time_micros <= ev.time_micros,
        decreases q@.len() - pos,
    {
        pos = pos + 1;
    }
    let ghost before = q@;
    q.insert(pos, ev);
    proof {
        assert forall|i: int, j: int| 0 <= i < j < q@.len()
            implies #[trigger] q@[i].time_micros <= #[trigger] q@[j].time_micros by {
            if j < pos {
                assert(q@[i] == before[i] && q@[j] == before[j]);
            } else if i > pos {
                assert(q@[i] == before[i - 1] && q@[j] == before[j - 1]);
            } else if i < pos && j == pos {
                assert(q@[i] == before[i]);
            } else if i == pos {
                assert(q@[j] == before[j - 1]);
                assert(ev.time_micros < before[pos as int].time_micros || pos == before.len());
            } else {
                assert(q@[i] == before[i] && q@[j] == before[j - 1]);
            }
        }
        lemma_seq_insert_to_multiset(before, pos as int, ev);
        assert forall|j: int| 0 <= j < q@.len()
            implies #[trigger] q@[j] == ev || before.contains(q@[j]) by {
            if j < pos {
                assert(q@[j] == before[j]);
            } else if j > pos {
                assert(q@[j] == before[j - 1]);
            }
        }
    }
}

/// Event scheduler with priority queue
pub struct Scheduler {
    /// Queued events, sorted by `time_micros`
    queue: Vec<ScheduledEvent>,
    /// Current timing information
    timing: SequencerTiming,
    /// Configuration
    config: SchedulerConfig,
    /// Wallclock microsecond the running position is measured from
    anchor_micros: Option<u64>,
    /// Current playback position in microseconds
    position_micros: u64,
    /// Whether playback is active
    playing: bool,
    /// Accumulated timing error for drift correction
    timing_error_micros: i64,
}

impl Scheduler {
    /// The queued events, sorted by `time_micros`.
    pub closed spec fn spec_queue(self) -> Seq<ScheduledEvent> {
        self.queue@
    }

    /// The scheduler's timing.
    pub closed spec fn spec_timing(self) -> SequencerTiming {
        self.timing
    }

    /// The scheduler's configuration.
    pub closed spec fn spec_config(self) -> SchedulerConfig {
        self.config
    }

    /// Whether playback is active.
    pub closed spec fn spec_playing(self) -> bool {
        self.playing
    }

    /// The playback position in microseconds.
    pub closed spec fn spec_position_micros(self) -> int {
        self.position_micros as int
    }

    /// The accumulated drift-correction error.
    pub closed spec fn spec_timing_error(self) -> int {
        self.timing_error_micros as int
    }

    /// A queue sorted by wallclock time under a well-formed timing: what
    /// the constructors establish and every method preserves.
    pub open spec fn wf(self) -> bool {
        &&& self.spec_timing().wf()
        &&& sorted_by_time(self.spec_queue())
    }

    /// Create a new scheduler
    pub fn new() -> (r: Self)
        ensures
            r.wf(),
            r.spec_queue().len() == 0,
            r.spec_timing() == SequencerTiming::spec_default(),
            !r.spec_playing(),
            r.spec_position_micros() == 0,
            r.spec_config().lookahead_ms == 50,
            r.spec_timing_error() == 0,
    {
        Self {
            queue: Vec::new(),
            timing: SequencerTiming::default(),
            config: SchedulerConfig::default(),
            anchor_micros: None,
            position_micros: 0,
            playing: false,
            timing_error_micros: 0,
        }
    }

    /// Create scheduler with custom config
    pub fn with_config(config: SchedulerConfig) -> (r: Self)
        ensures
            r.wf(),
            r.spec_queue().len() == 0,
            r.spec_timing() == SequencerTiming::spec_default(),
            !r.spec_playing(),
            r.spec_position_micros() == 0,
            r.spec_config() == config,
    {
        Self {
            queue: Vec::new(),
            timing: SequencerTiming::default(),
            config,
            anchor_micros: None,
            position_micros: 0,
            playing: false,
            timing_error_micros: 0,
        }
    }

    /// Set the tempo in thousandths of a beat per minute, clamped to
    /// 20..=300 BPM, and recompute the wallclock time of every queued
    /// event under the new tempo, keeping the queue sorted.
    pub fn set_tempo(&mut self, tempo_milli_bpm: u32)
        requires
            old(self).wf(),
        ensures
            final(self).wf(),
            final(self).spec_timing() == (SequencerTiming {
                tempo_milli_bpm: crate::spec_clamp(tempo_milli_bpm as int, 20_000, 300_000) as u32,
                ..old(self).spec_timing()
            }),
            final(self).spec_queue().len() == old(self).spec_queue().len(),
            // The same events are queued (ignoring their recomputed
            // wallclock stamps) ...
            final(self).spec_queue().map_values(|e: ScheduledEvent| stamp(e, final(self).spec_timing()))
                .to_multiset()
                == old(self).spec_queue().map_values(|e: ScheduledEvent| stamp(e, final(self).spec_timing()))
                    .to_multiset(),
            // ... and every queued event's wallclock time now derives from
            // its tick time under the new tempo.
            forall|i: int| 0 <= i < final(self).spec_queue().len()
                ==> #[trigger] final(self).spec_queue()[i]
                    == stamp(final(self).spec_queue()[i], final(self).spec_timing()),
            final(self).spec_playing() == old(self).spec_playing(),
            final(self).spec_position_micros() == old(self).spec_position_micros(),
    {
        self.timing.tempo_milli_bpm = crate::clamp_u32(tempo_milli_bpm, 20_000, 300_000);
        // Recalculate microsecond times for all queued events
        let ghost new_timing = self.timing;
        let mut rebuilt: Vec<ScheduledEvent> = Vec::new();
        let n = self.queue.len();
        let mut i: usize = 0;
        proof {
            broadcast use vstd::seq_lib::group_to_multiset_ensures;
            assert(self.queue@.map_values(|e: ScheduledEvent| stamp(e, new_timing)).take(0)
                =~= Seq::<ScheduledEvent>::empty());
        }
        while i < n
            invariant
                0 <= i <= n,
                n == self.queue@.len(),
                self.timing == new_timing,
                self.timing.wf(),
                self.queue@ == old(self).spec_queue(),
                sorted_by_time(rebuilt@),
                rebuilt@.len() == i,
                rebuilt@.to_multiset() == self.queue@
                    .map_values(|e: ScheduledEvent| stamp(e, new_timing))
                    .take(i as int).to_multiset(),
                forall|j: int| 0 <= j < rebuilt@.len()
                    ==> #[trigger] rebuilt@[j] == stamp(rebuilt@[j], new_timing),
            decreases n - i,
        {
            let e = self.queue[i];
            let micros = self.timing.ticks_to_micros(e.time_ticks);
            let stamped = ScheduledEvent { time_micros: micros, ..e };
            assert(stamped == stamp(e, new_timing));
            assert(stamp(stamped, new_timing) == stamped);
            let ghost rebuilt_before = rebuilt@;
            insert_event_sorted(&mut rebuilt, stamped);
            proof {
                broadcast use vstd::seq_lib::group_to_multiset_ensures;
                let mapped = self.queue@.map_values(|ev: ScheduledEvent| stamp(ev, new_timing));
                assert(mapped.take(i as int + 1) =~= mapped.take(i as int).push(mapped[i as int]));
                assert(mapped[i as int] == stamped);
                assert forall|j: int| 0 <= j < rebuilt@.len()
                    implies #[trigger] rebuilt@[j] == stamp(rebuilt@[j], new_timing) by {
                    if rebuilt@[j] != stamped {
                        assert(rebuilt_before.contains(rebuilt@[j]));
                        let k = choose|k: int|
                            0 <= k < rebuilt_before.len() && rebuilt_before[k] == rebuilt@[j];
                    }
                }
            }
            i = i + 1;
        }
        proof {
            let mapped = self.queue@.map_values(|ev: ScheduledEvent| stamp(ev, new_timing));
            assert(mapped.take(n as int) =~= mapped);
        }
        self.queue = rebuilt;
        proof {
            // Stamping is idempotent, so mapping the rebuilt queue through
            // `stamp` leaves it unchanged.
            let mapped = self.queue@.map_values(|ev: ScheduledEvent| stamp(ev, new_timing));
            assert(mapped =~= self.queue@);
        }
    }

    /// Get current tempo in thousandths of a beat per minute
    pub fn tempo(&self) -> (r: u32)
        ensures
            r == self.spec_timing().tempo_milli_bpm,
    {
        self.timing.tempo_milli_bpm
    }

    /// Set time signature; a zero numerator or denominator is lifted to one.
    pub fn set_time_signature(&mut self, beats_per_bar: u8, beat_unit: u8)
        requires
            old(self).wf(),
        ensures
            final(self).wf(),
            final(self).spec_timing() == (SequencerTiming {
                beats_per_bar: if beats_per_bar == 0 { 1u8 } else { beats_per_bar },
                beat_unit: if beat_unit == 0 { 1u8 } else { beat_unit },
                ..old(self).spec_timing()
            }),
            final(self).spec_queue() == old(self).spec_queue(),
    {
        self.timing.beats_per_bar = if beats_per_bar == 0 { 1 } else { beats_per_bar };
        self.timing.beat_unit = if beat_unit == 0 { 1 } else { beat_unit };
    }

    /// Get current timing information
    pub fn timing(&self) -> (r: &SequencerTiming)
        ensures
            *r == self.spec_timing(),
    {
        &self.timing
    }

    /// Schedule an event: its wallclock time is derived from its tick time
    /// at the current tempo and it is placed in time order.
    pub fn schedule(&mut self, event: ScheduledEvent)
        requires
            old(self).wf(),
        ensures
            final(self).wf(),
            final(self).spec_queue().to_multiset()
                == old(self).spec_queue().to_multiset()
                    .insert(stamp(event, old(self).spec_timing())),
            final(self).spec_queue().len() == old(self).spec_queue().len() + 1,
            final(self).spec_timing() == old(self).spec_timing(),
            final(self).spec_playing() == old(self).spec_playing(),
            final(self).spec_position_micros() == old(self).spec_position_micros(),
    {
        let micros = self.timing.ticks_to_micros(event.time_ticks);
        let stamped = ScheduledEvent { time_micros: micros, ..event };
        assert(stamped == stamp(event, self.timing));
        insert_event_sorted(&mut self.queue, stamped);
    }

    /// Schedule multiple events
    pub fn schedule_all(&mut self, events: Vec<ScheduledEvent>)
        requires
            old(self).wf(),
        ensures
            final(self).wf(),
            final(self).spec_queue().to_multiset()
                == old(self).spec_queue().to_multiset().add(
                    events@.map_values(|e: ScheduledEvent| stamp(e, old(self).spec_timing()))
                        .to_multiset()),
            final(self).spec_timing() == old(self).spec_timing(),
            final(self).spec_playing() == old(self).spec_playing(),
    {
        let n = events.len();
        let mut i: usize = 0;
        proof {
            broadcast use vstd::seq_lib::group_to_multiset_ensures;
            let mapped = events@.map_values(|e: ScheduledEvent| stamp(e, old(self).spec_timing()));
            assert(mapped.take(0) =~= Seq::<ScheduledEvent>::empty());
            assert(old(self).spec_queue().to_multiset().add(mapped.take(0).to_multiset())
                =~= old(self).spec_queue().to_multiset());
        }
        while i < n
            invariant
                0 <= i <= n,
                n == events@.len(),
                self.wf(),
                self.timing == old(self).spec_timing(),
                self.playing == old(self).spec_playing(),
                self.spec_queue().to_multiset() == old(self).spec_queue().to_multiset().add(
                    events@.map_values(|e: ScheduledEvent| stamp(e, old(self).spec_timing()))
                        .take(i as int).to_multiset()),
            decreases n - i,
        {
            let e = events[i];
            self.schedule(e);
            proof {
                broadcast use vstd::seq_lib::group_to_multiset_ensures;
                let mapped = events@.map_values(
                    |ev: ScheduledEvent| stamp(ev, old(self).spec_timing()));
                assert(mapped.take(i as int + 1) =~= mapped.take(i as int).push(mapped[i as int]));
                assert(self.spec_queue().to_multiset()
                    =~= old(self).spec_queue().to_multiset()
                        .add(mapped.take(i as int + 1).to_multiset()));
            }
            i = i + 1;
        }
        proof {
            let mapped = events@.map_values(|e: ScheduledEvent| stamp(e, old(self).spec_timing()));
            assert(mapped.take(n as int) =~= mapped);
        }
    }

    /// Start playback, measuring position from the given wallclock time.
    pub fn start(&mut self, now_micros: u64)
        ensures
            final(self).spec_playing(),
            final(self).spec_position_micros() == 0,
            final(self).spec_queue() == old(self).spec_queue(),
            final(self).spec_timing() == old(self).spec_timing(),
            final(self).spec_timing_error() == 0,
    {
        self.anchor_micros = Some(now_micros);
        self.position_micros = 0;
        self.playing = true;
        self.timing_error_micros = 0;
    }

    /// Stop playback and clear the position.
    pub fn stop(&mut self)
        ensures
            !final(self).spec_playing(),
            final(self).spec_position_micros() == 0,
            final(self).spec_timing() == (SequencerTiming {
                position_ticks: 0,
                ..old(self).spec_timing()
            }),
            final(self).spec_queue() == old(self).spec_queue(),
            final(self).spec_timing_error() == 0,
    {
        self.playing = false;
        self.anchor_micros = None;
        self.position_micros = 0;
        self.timing.reset();
        self.timing_error_micros = 0;
    }

    /// Pause playback, freezing the position at the given wallclock time.
    pub fn pause(&mut self, now_micros: u64)
        requires
            old(self).wf(),
        ensures
            final(self).wf(),
            !final(self).spec_playing(),
            final(self).spec_queue() == old(self).spec_queue(),
            old(self).spec_playing() ==> final(self).spec_position_micros()
                == old(self).spec_elapsed_at(now_micros as int),
            old(self).spec_playing() ==> final(self).spec_timing() == (SequencerTiming {
                position_ticks: crate::sequencer::spec_micros_to_ticks(
                    old(self).spec_elapsed_at(now_micros as int),
                    old(self).spec_timing().tempo_milli_bpm as int,
                    old(self).spec_timing().ppqn as int) as u64,
                ..old(self).spec_timing()
            }),
            !old(self).spec_playing() ==> *final(self) == *old(self),
    {
        if self.playing {
            self.update_position(now_micros);
            self.playing = false;
            self.anchor_micros = None;
        }
    }

    /// Resume playback: the wallclock baseline is re-anchored so that the
    /// position continues from its frozen value.
    pub fn resume(&mut self, now_micros: u64)
        ensures
            final(self).spec_playing(),
            final(self).spec_position_micros() == old(self).spec_position_micros(),
            final(self).spec_queue() == old(self).spec_queue(),
            final(self).spec_timing() == old(self).spec_timing(),
            !old(self).spec_playing() ==> final(self).spec_anchor() == Some(
                (if now_micros as int >= old(self).spec_position_micros() {
                    now_micros as int - old(self).spec_position_micros()
                } else {
                    0int
                }) as u64),
    {
        if !self.playing {
            let anchor = if now_micros >= self.position_micros {
                now_micros - self.position_micros
            } else {
                0
            };
            self.anchor_micros = Some(anchor);
            self.playing = true;
        }
    }

    /// The wallclock anchor, when playing.
    pub closed spec fn spec_anchor(self) -> Option<u64> {
        self.anchor_micros
    }

    /// Microseconds elapsed since the anchor at the given wallclock time;
    /// zero when there is no anchor or the clock reads earlier than it.
    pub open spec fn spec_elapsed_at(self, now_micros: int) -> int {
        match self.spec_anchor() {
            Some(anchor) => if now_micros >= anchor { now_micros - anchor } else { 0 },
            None => self.spec_position_micros(),
        }
    }

    /// Check if playing
    pub fn is_playing(&self) -> (r: bool)
        ensures
            r == self.spec_playing(),
    {
        self.playing
    }

    /// Get current position in ticks
    pub fn position_ticks(&self) -> (r: u64)
        ensures
            r == self.spec_timing().position_ticks,
    {
        self.timing.position_ticks
    }

    /// Get current position in microseconds
    pub fn position_micros(&self) -> (r: u64)
        ensures
            r == self.spec_position_micros(),
    {
        self.position_micros
    }

    /// Clear all scheduled events
    pub fn clear(&mut self)
        ensures
            final(self).spec_queue().len() == 0,
            final(self).spec_timing() == old(self).spec_timing(),
            final(self).spec_playing() == old(self).spec_playing(),
    {
        self.queue.clear();
    }

    /// Get number of queued events
    pub fn queue_len(&self) -> (r: usize)
        ensures
            r == self.spec_queue().len(),
    {
        self.queue.len()
    }

    /// Update current position from the elapsed wallclock time.
    fn update_position(&mut self, now_micros: u64)
        requires
            old(self).wf(),
        ensures
            final(self).wf(),
            final(self).spec_queue() == old(self).spec_queue(),
            final(self).spec_playing() == old(self).spec_playing(),
            final(self).spec_anchor() == old(self).spec_anchor(),
            final(self).spec_position_micros() == old(self).spec_elapsed_at(now_micros as int),
            final(self).spec_timing() == (SequencerTiming {
                position_ticks: crate::sequencer::spec_micros_to_ticks(
                    old(self).spec_elapsed_at(now_micros as int),
                    old(self).spec_timing().tempo_milli_bpm as int,
                    old(self).spec_timing().ppqn as int) as u64,
                ..old(self).spec_timing()
            }),
            final(self).spec_config() == old(self).spec_config(),
    {
        let elapsed = match self.anchor_micros {
            Some(anchor) => if now_micros >= anchor { now_micros - anchor } else { 0 },
            None => self.position_micros,
        };
        self.position_micros = elapsed;
        self.timing.position_ticks = self.timing.micros_to_ticks(elapsed);
    }

    /// Take the sorted prefix of the queue whose wallclock time is at most
    /// `target`; the queue keeps the rest.
    fn take_due(&mut self, target: u64) -> (r: Vec<ScheduledEvent>)
        requires
            old(self).wf(),
        ensures
            final(self).wf(),
            sorted_by_time(r@),
            r@ + final(self).spec_queue() == old(self).spec_queue(),
            forall|i: int| 0 <= i < r@.len() ==> #[trigger] r@[i].time_micros <= target,
            final(self).spec_queue().len() > 0
                ==> final(self).spec_queue()[0].time_micros > target,
            final(self).spec_timing() == old(self).spec_timing(),
            final(self).spec_playing() == old(self).spec_playing(),
            final(self).spec_position_micros() == old(self).spec_position_micros(),
            final(self).spec_config() == old(self).spec_config(),
            final(self).spec_anchor() == old(self).spec_anchor(),
    {
        let n = self.queue.len();
        let mut k: usize = 0;
        while k < n && self.queue[k].time_micros <= target
            invariant
                0 <= k <= n,
                n == self.queue@.len(),
                self.queue@ == old(self).spec_queue(),
                forall|j: int| 0 <= j < k ==> #[trigger] self.queue@[j].time_micros <= target,
            decreases n - k,
        {
            k = k + 1;
        }
        let mut taken: Vec<ScheduledEvent> = Vec::new();
        let mut i: usize = 0;
        while i < k
            invariant
                0 <= i <= k <= n,
                n == self.queue@.len(),
                self.queue@ == old(self).spec_queue(),
                taken@ == self.queue@.take(k as int).take(i as int),
            decreases k - i,
        {
            taken.push(self.queue[i]);
            proof {
                assert(taken@ =~= self.queue@.take(k as int).take(i as int + 1));
            }
            i = i + 1;
        }
        let mut rest: Vec<ScheduledEvent> = Vec::new();
        let mut j: usize = k;
        while j < n
            invariant
                k <= j <= n,
                n == self.queue@.len(),
                self.queue@ == old(self).spec_queue(),
                rest@ == self.queue@.subrange(k as int, j as int),
            decreases n - j,
        {
            rest.push(self.queue[j]);
            proof {
                assert(rest@ =~= self.queue@.subrange(k as int, j as int + 1));
            }
            j = j + 1;
        }
        proof {
            assert(taken@ =~= self.queue@.take(k as int));
            assert(rest@ =~= self.queue@.skip(k as int));
            assert(taken@ + rest@ =~= self.queue@);
        }
        self.queue = rest;
        taken
    }

    /// Get events that should be played now: everything due within the
    /// lookahead window of the position at the given wallclock time.
    /// The returned events are nondecreasing in `time_micros`.
    pub fn poll(&mut self, now_micros: u64) -> (r: Vec<ScheduledEvent>)
        requires
            old(self).wf(),
        ensures
            final(self).wf(),
            sorted_by_time(r@),
            !old(self).spec_playing() ==> r@.len() == 0 && *final(self) == *old(self),
            final(self).spec_playing() == old(self).spec_playing(),
            final(self).spec_config() == old(self).spec_config(),
            final(self).spec_anchor() == old(self).spec_anchor(),
            old(self).spec_playing() ==> {
                let target = old(self).spec_elapsed_at(now_micros as int)
                    + old(self).spec_config().lookahead_ms * 1000;
                &&& r@ + final(self).spec_queue() == old(self).spec_queue()
                &&& forall|i: int| 0 <= i < r@.len() ==> #[trigger] r@[i].time_micros <= target
                &&& (final(self).spec_queue().len() > 0
                    ==> final(self).spec_queue()[0].time_micros > target)
                &&& final(self).spec_position_micros()
                    == old(self).spec_elapsed_at(now_micros as int)
                &&& final(self).spec_timing() == (SequencerTiming {
                    position_ticks: crate::sequencer::spec_micros_to_ticks(
                        old(self).spec_elapsed_at(now_micros as int),
                        old(self).spec_timing().tempo_milli_bpm as int,
                        old(self).spec_timing().ppqn as int) as u64,
                    ..old(self).spec_timing()
                })
            },
    {
        if !self.playing {
            return Vec::new();
        }

        self.update_position(now_micros);

        let lookahead_micros = self.config.lookahead_ms as u64 * 1000;
        let target = if self.position_micros <= u64::MAX - lookahead_micros {
            self.position_micros + lookahead_micros
        } else {
            u64::MAX
        };
        self.take_due(target)
    }

    /// Get events due within the given window of the position at the given
    /// wallclock time, in nondecreasing `time_micros` order.
    pub fn poll_window(&mut self, now_micros: u64, window_micros: u64) -> (r: Vec<ScheduledEvent>)
        requires
            old(self).wf(),
        ensures
            final(self).wf(),
            sorted_by_time(r@),
            !old(self).spec_playing() ==> r@.len() == 0 && *final(self) == *old(self),
            final(self).spec_playing() == old(self).spec_playing(),
            final(self).spec_config() == old(self).spec_config(),
            final(self).spec_anchor() == old(self).spec_anchor(),
            old(self).spec_playing() ==> {
                let target = old(self).spec_elapsed_at(now_micros as int) + window_micros;
                &&& r@ + final(self).spec_queue() == old(self).spec_queue()
                &&& forall|i: int| 0 <= i < r@.len() ==> #[trigger] r@[i].time_micros <= target
                &&& (final(self).spec_queue().len() > 0
                    ==> final(self).spec_queue()[0].time_micros > target)
                &&& final(self).spec_position_micros()
                    == old(self).spec_elapsed_at(now_micros as int)
                &&& final(self).spec_timing() == (SequencerTiming {
                    position_ticks: crate::sequencer::spec_micros_to_ticks(
                        old(self).spec_elapsed_at(now_micros as int),
                        old(self).spec_timing().tempo_milli_bpm as int,
                        old(self).spec_timing().ppqn as int) as u64,
                    ..old(self).spec_timing()
                })
            },
    {
        if !self.playing {
            return Vec::new();
        }

        self.update_position(now_micros);
        let target = if self.position_micros <= u64::MAX - window_micros {
            self.position_micros + window_micros
        } else {
            u64::MAX
        };
        self.take_due(target)
    }

    /// Microseconds until the next queued event from the current position;
    /// zero if it is already due, `None` when stopped or empty.
    pub fn time_to_next_event(&self) -> (r: Option<u64>)
        ensures
            match r {
                Some(gap) => {
                    &&& self.spec_playing()
                    &&& self.spec_queue().len() > 0
                    &&& gap == if self.spec_queue()[0].time_micros as int
                        > self.spec_position_micros() {
                        self.spec_queue()[0].time_micros - self.spec_position_micros()
                    } else {
                        0int
                    }
                },
                None => !self.spec_playing() || self.spec_queue().len() == 0,
            },
    {
        if !self.playing {
            return None;
        }
        if self.queue.len() == 0 {
            return None;
        }
        let event_time = self.queue[0].time_micros;
        if event_time <= self.position_micros {
            Some(0)
        } else {
            Some(event_time - self.position_micros)
        }
    }

    /// Apply drift correction, saturating at the 64-bit limits.
    pub fn apply_drift_correction(&mut self, correction_micros: i64)
        ensures
            final(self).spec_timing_error() == crate::spec_clamp(
                old(self).spec_timing_error() + correction_micros,
                i64::MIN as int, i64::MAX as int),
            final(self).spec_queue() == old(self).spec_queue(),
            final(self).spec_timing() == old(self).spec_timing(),
    {
        let sum: i128 = self.timing_error_micros as i128 + correction_micros as i128;
        self.timing_error_micros = if sum < i64::MIN as i128 {
            i64::MIN
        } else if sum > i64::MAX as i128 {
            i64::MAX
        } else {
            sum as i64
        };
    }

    /// Get accumulated timing error
    pub fn timing_error(&self) -> (r: i64)
        ensures
            r == self.spec_timing_error(),
    {
        self.timing_error_micros
    }

    /// Seek to a specific tick position: the position moves there and the
    /// events whose tick time lies before it are dropped.
    pub fn seek(&mut self, ticks: u64)
        requires
            old(self).wf(),
        ensures
            final(self).wf(),
            final(self).spec_timing() == (SequencerTiming {
                position_ticks: ticks,
                ..old(self).spec_timing()
            }),
            final(self).spec_position_micros() == spec_ticks_to_micros(
                ticks as int,
                old(self).spec_timing().tempo_milli_bpm as int,
                old(self).spec_timing().ppqn as int),
            final(self).spec_queue()
                == old(self).spec_queue().filter(|e: ScheduledEvent| e.time_ticks >= ticks),
            final(self).spec_playing() == old(self).spec_playing(),
    {
        self.timing.position_ticks = ticks;
        self.position_micros = self.timing.ticks_to_micros(ticks);

        // Remove events before the seek position
        let n = self.queue.len();
        let mut kept: Vec<ScheduledEvent> = Vec::new();
        let mut i: usize = 0;
        proof {
            reveal(Seq::filter);
            assert(self.queue@.take(0) =~= Seq::<ScheduledEvent>::empty());
        }
        while i < n
            invariant
                0 <= i <= n,
                n == self.queue@.len(),
                self.queue@ == old(self).spec_queue(),
                kept@ == self.queue@.take(i as int)
                    .filter(|e: ScheduledEvent| e.time_ticks >= ticks),
            decreases n - i,
        {
            let e = self.queue[i];
            if e.time_ticks >= ticks {
                kept.push(e);
            }
            proof {
                let pre = self.queue@.take(i as int);
                assert(self.queue@.take(i as int + 1) =~= pre.push(self.queue@[i as int]));
                pre.lemma_filter_push(self.queue@[i as int],
                    |ev: ScheduledEvent| ev.time_ticks >= ticks);
            }
            i = i + 1;
        }
        proof {
            assert(self.queue@.take(n as int) =~= self.queue@);
            lemma_sorted_filter(self.queue@, |e: ScheduledEvent| e.time_ticks >= ticks);
        }
        self.queue = kept;
    }
}

/// A filtered subsequence of a time-sorted queue is still time-sorted.
proof fn lemma_sorted_filter(q: Seq<ScheduledEvent>, pred: spec_fn(ScheduledEvent) -> bool)
    requires
        sorted_by_time(q),
    ensures
        sorted_by_time(q.filter(pred)),
    decreases q.len(),
{
    reveal(Seq::filter);
    if q.len() > 0 {
        let prefix = q.drop_last();
        assert(sorted_by_time(prefix)) by {
            assert forall|i: int, j: int| 0 <= i < j < prefix.len()
                implies #[trigger] prefix[i].time_micros <= #[trigger] prefix[j].time_micros by {
                assert(q[i].time_micros <= q[j].time_micros);
            }
        }
        lemma_sorted_filter(prefix, pred);
        if pred(q.last()) {
            let f = prefix.filter(pred);
            assert forall|i: int, j: int| 0 <= i < j < f.push(q.last()).len()
                implies #[trigger] f.push(q.last())[i].time_micros
                    <= #[trigger] f.push(q.last())[j].time_micros by {
                if j < f.len() {
                } else {
                    // the pushed event comes last in the original order
                    broadcast use vstd::seq_lib::group_seq_properties;
                    assert(f.push(q.last())[j] == q.last());
                    assert(prefix.contains(f[i])) by {
                        prefix.lemma_filter_contains_rev(pred, f[i]);
                    }
                    let k = choose|k: int| 0 <= k < prefix.len() && prefix[k] == f[i];
                    assert(q[k].time_micros <= q.last().time_micros);
                }
            }
        }
    }
}

} // verus!
