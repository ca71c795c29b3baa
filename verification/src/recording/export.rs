//! The track and note model for standard MIDI file export.
//!
//! The byte-level file writing is a collaborator's concern; this module
//! holds the notes a file is assembled from.

use vstd::prelude::*;

use crate::recording::freeze::FrozenNote;

verus! {

/// MIDI file format type
#[derive(Debug, Clone, Copy, PartialEq, Eq, Structural)]
pub enum MidiFileFormat {
    /// Type 0: Single track with all channels
    Type0,
    /// Type 1: Multiple simultaneous tracks
    Type1,
}

impl Default for MidiFileFormat {
    /// Exports default to a single-track file.
    fn default() -> (r: Self)
        ensures
            r == MidiFileFormat::Type0,
    {
        MidiFileFormat::Type0
    }
}

/// A note for export
#[derive(Debug, Clone, Copy, PartialEq, Eq, Structural)]
pub struct ExportNote {
    /// Start tick
    pub tick: u64,
    /// Note number (0-127)
    pub note: u8,
    /// Velocity (1-127)
    pub velocity: u8,
    /// Duration in ticks
    pub duration: u64,
}

impl ExportNote {
    /// Create a new export note
    pub fn new(tick: u64, note: u8, velocity: u8, duration: u64) -> (r: Self)
        ensures
            r == (ExportNote { tick, note, velocity, duration }),
    {
        Self { tick, note, velocity, duration }
    }

    /// The tick one past the note: its start plus its duration.
    pub fn end_tick(&self) -> (r: u64)
        requires
            self.tick + self.duration <= u64::MAX,
        ensures
            r == self.tick + self.duration,
    {
        self.tick + self.duration
    }
}

/// A track for export
#[derive(Debug)]
pub struct ExportTrack {
    /// Track name
    pub name: String,
    /// MIDI channel (0-15)
    pub channel: u8,
    /// Notes in this track
    pub notes: Vec<ExportNote>,
    /// Program change at start (None = no change)
    pub program: Option<u8>,
}

impl ExportTrack {
    /// Create a new export track
    pub fn new(name: String, channel: u8) -> (r: Self)
        ensures
            r.name@ == name@,
            r.channel == channel,
            r.notes@.len() == 0,
            r.program is None,
    {
        Self { name, channel, notes: Vec::new(), program: None }
    }

    /// Add a note
    pub fn add_note(&mut self, note: ExportNote)
        ensures
            final(self).notes@ == old(self).notes@.push(note),
            final(self).name@ == old(self).name@,
            final(self).channel == old(self).channel,
            final(self).program == old(self).program,
    {
        self.notes.push(note);
    }

    /// Append one export note per frozen note, keeping tick, note,
    /// velocity and duration.
    pub fn add_frozen_notes(&mut self, notes: &[FrozenNote])
        ensures
            final(self).notes@.len() == old(self).notes@.len() + notes@.len(),
            forall|i: int| 0 <= i < old(self).notes@.len()
                ==> #[trigger] final(self).notes@[i] == old(self).notes@[i],
            forall|i: int| 0 <= i < notes@.len()
                ==> #[trigger] final(self).notes@[old(self).notes@.len() + i]
                    == (ExportNote {
                        tick: notes@[i].start_tick,
                        note: notes@[i].note,
                        velocity: notes@[i].velocity,
                        duration: notes@[i].duration,
                    }),
            final(self).name@ == old(self).name@,
            final(self).channel == old(self).channel,
    {
        let n = notes.len();
        let mut i: usize = 0;
        while i < n
            invariant
                0 <= i <= n,
                n == notes@.len(),
                self.notes@.len() == old(self).notes@.len() + i,
                self.name@ == old(self).name@,
                self.channel == old(self).channel,
                self.program == old(self).program,
                forall|j: int| 0 <= j < old(self).notes@.len()
                    ==> #[trigger] self.notes@[j] == old(self).notes@[j],
                forall|j: int| 0 <= j < i
                    ==> #[trigger] self.notes@[old(self).notes@.len() + j]
                        == (ExportNote {
                            tick: notes@[j].start_tick,
                            note: notes@[j].note,
                            velocity: notes@[j].velocity,
                            duration: notes@[j].duration,
                        }),
            decreases n - i,
        {
            let frozen = notes[i];
            self.notes.push(ExportNote {
                tick: frozen.start_tick,
                note: frozen.note,
                velocity: frozen.velocity,
                duration: frozen.duration,
            });
            i = i + 1;
        }
    }

    /// Set the program change sent at the start of the track.
    pub fn with_program(self, program: u8) -> (r: Self)
        ensures
            r.program == Some(program),
            r.name@ == self.name@,
            r.channel == self.channel,
            r.notes@ == self.notes@,
    {
        ExportTrack { program: Some(program), ..self }
    }

    /// Sort the notes by start tick.
    pub fn sort(&mut self)
        ensures
            final(self).notes@.to_multiset() == old(self).notes@.to_multiset(),
            final(self).notes@.len() == old(self).notes@.len(),
            forall|a: int, b: int| 0 <= a < b < final(self).notes@.len()
                ==> #[trigger] final(self).notes@[a].tick
                    <= #[trigger] final(self).notes@[b].tick,
            final(self).name@ == old(self).name@,
            final(self).channel == old(self).channel,
            final(self).program == old(self).program,
    {
        let n = self.notes.len();
        let mut sorted: Vec<ExportNote> = Vec::new();
        let mut i: usize = 0;
        proof {
            broadcast use vstd::seq_lib::group_to_multiset_ensures;
            assert(self.notes@.take(0) =~= Seq::<ExportNote>::empty());
            assert(sorted@.to_multiset() =~= self.notes@.take(0).to_multiset());
        }
        while i < n
            invariant
                0 <= i <= n,
                n == self.notes@.len(),
                self.notes@ == old(self).notes@,
                self.name@ == old(self).name@,
                self.channel == old(self).channel,
                self.program == old(self).program,
                sorted@.len() == i,
                sorted@.to_multiset() == self.notes@.take(i as int).to_multiset(),
                forall|a: int, b: int| 0 <= a < b < sorted@.len()
                    ==> #[trigger] sorted@[a].tick <= #[trigger] sorted@[b].tick,
            decreases n - i,
        {
            let x = self.notes[i];
            let mut pos: usize = 0;
            while pos < sorted.len() && sorted[pos].tick <= x.tick
                invariant
                    0 <= pos <= sorted@.len(),
                    forall|a: int| 0 <= a < pos ==> #[trigger] sorted@[a].tick <= x.tick,
                decreases sorted@.len() - pos,
            {
                pos = pos + 1;
            }
            let ghost before = sorted@;
            sorted.insert(pos, x);
            proof {
                broadcast use vstd::seq_lib::group_to_multiset_ensures;
                assert forall|a: int, b: int| 0 <= a < b < sorted@.len()
                    implies #[trigger] sorted@[a].tick <= #[trigger] sorted@[b].tick by {
                    if b < pos {
                        assert(sorted@[a] == before[a] && sorted@[b] == before[b]);
                    } else if a > pos {
                        assert(sorted@[a] == before[a - 1] && sorted@[b] == before[b - 1]);
                    } else if a < pos && b == pos {
                        assert(sorted@[a] == before[a]);
                    } else if a == pos {
                        assert(sorted@[b] == before[b - 1]);
                        assert(x.tick < before[pos as int].tick || pos == before.len());
                    } else {
                        assert(sorted@[a] == before[a] && sorted@[b] == before[b - 1]);
                    }
                }
                lemma_export_insert_to_multiset(before, pos as int, x);
                assert(self.notes@.take(i as int + 1)
                    =~= self.notes@.take(i as int).push(self.notes@[i as int]));
            }
            i = i + 1;
        }
        proof {
            assert(self.notes@.take(n as int) =~= self.notes@);
        }
        self.notes = sorted;
    }
}

/// Inserting anywhere in a note sequence adds one copy to its multiset.
proof fn lemma_export_insert_to_multiset(s: Seq<ExportNote>, i: int, a: ExportNote)
    requires
        0 <= i <= s.len(),
    ensures
        s.insert(i, a).to_multiset() == s.to_multiset().insert(a),
{
    broadcast use vstd::seq_lib::group_to_multiset_ensures;

    let t = s.insert(i, a);
    assert(t[i] == a);
    assert(t.remove(i) =~= s);
    assert(t.remove(i).to_multiset() =~= t.to_multiset().remove(a));
    assert(t.to_multiset().contains(a)) by {
        assert(t.contains(a));
    }
    assert(t.to_multiset() =~= s.to_multiset().insert(a));
}

/// Encode a value as a MIDI variable-length quantity: seven bits per
/// byte, most significant group first, the continuation bit set on every
/// byte but the last.
pub open spec fn spec_vlq(value: int) -> Seq<u8>
    decreases value,
{
    if value < 0x80 {
        seq![value as u8]
    } else {
        spec_vlq_high(value / 0x80).push((value % 0x80) as u8)
    }
}

/// The continuation bytes of a variable-length quantity.
pub open spec fn spec_vlq_high(value: int) -> Seq<u8>
    decreases value,
{
    if value <= 0 {
        Seq::empty()
    } else if value < 0x80 {
        seq![(value + 0x80) as u8]
    } else {
        spec_vlq_high(value / 0x80).push((value % 0x80 + 0x80) as u8)
    }
}

/// Encode a delta time as a MIDI variable-length quantity.
pub fn encode_variable_length(value: u32) -> (r: Vec<u8>)
    ensures
        r@ == spec_vlq(value as int),
        1 <= r@.len(),
{
    let mut bytes: Vec<u8> = Vec::new();
    if value < 0x80 {
        bytes.push(value as u8);
        proof {
            assert(bytes@ =~= spec_vlq(value as int));
        }
        return bytes;
    }
    let mut rest = value / 0x80;
    let mut high: Vec<u8> = Vec::new();
    while rest > 0
        invariant
            spec_vlq_high((value / 0x80) as int)
                == spec_vlq_high(rest as int) + high@.reverse(),
        decreases rest,
    {
        let ghost high_before = high@;
        let ghost rest_before = rest as int;
        high.push((rest % 0x80 + 0x80) as u8);
        rest = rest / 0x80;
        proof {
            assert(high@.reverse() =~= seq![high@[high@.len() - 1]] + high_before.reverse());
            if rest > 0 {
                assert(spec_vlq_high(rest_before)
                    =~= spec_vlq_high(rest_before / 0x80).push(
                        (rest_before % 0x80 + 0x80) as u8));
            }
            assert(spec_vlq_high(rest as int) + high@.reverse()
                =~= spec_vlq_high(rest_before) + high_before.reverse());
        }
    }
    proof {
        assert(spec_vlq_high(0) =~= Seq::<u8>::empty());
        assert(spec_vlq_high((value / 0x80) as int) =~= high@.reverse());
    }
    let hn = high.len();
    let mut k: usize = 0;
    while k < hn
        invariant
            0 <= k <= hn,
            hn == high@.len(),
            bytes@.len() == k,
            forall|j: int| 0 <= j < k ==> #[trigger] bytes@[j] == high@[hn - 1 - j],
        decreases hn - k,
    {
        bytes.push(high[hn - 1 - k]);
        k = k + 1;
    }
    bytes.push((value % 0x80) as u8);
    proof {
        assert(bytes@ =~= high@.reverse().push((value as int % 0x80) as u8));
        assert(bytes@ =~= spec_vlq(value as int));
    }
    bytes
}

/// One timed event of a standard MIDI file: an absolute tick and the
/// bytes written after the delta time.
#[derive(Debug, PartialEq)]
pub struct MidiExportEvent {
    /// Absolute tick
    pub tick: u64,
    /// Event data
    pub data: Vec<u8>,
}

impl MidiExportEvent {
    /// A note-on channel message.
    pub fn note_on(tick: u64, channel: u8, note: u8, velocity: u8) -> (r: Self)
        ensures
            r.tick == tick,
            r.data@ == seq![(0x90u8 | (channel & 0x0F)) as u8, note & 0x7F, velocity & 0x7F],
    {
        let data: Vec<u8> = vec![0x90 | (channel & 0x0F), note & 0x7F, velocity & 0x7F];
        proof {
            assert(data@ =~= seq![(0x90u8 | (channel & 0x0F)) as u8, note & 0x7F,
                velocity & 0x7F]);
        }
        Self { tick, data }
    }

    /// A note-off channel message (note on at velocity zero is not used
    /// here; the file writes true note offs).
    pub fn note_off(tick: u64, channel: u8, note: u8) -> (r: Self)
        ensures
            r.tick == tick,
            r.data@ == seq![(0x80u8 | (channel & 0x0F)) as u8, note & 0x7F, 0u8],
    {
        let data: Vec<u8> = vec![0x80 | (channel & 0x0F), note & 0x7F, 0];
        proof {
            assert(data@ =~= seq![(0x80u8 | (channel & 0x0F)) as u8, note & 0x7F, 0u8]);
        }
        Self { tick, data }
    }

    /// A program-change channel message.
    pub fn program_change(tick: u64, channel: u8, program: u8) -> (r: Self)
        ensures
            r.tick == tick,
            r.data@ == seq![(0xC0u8 | (channel & 0x0F)) as u8, program & 0x7F],
    {
        let data: Vec<u8> = vec![0xC0 | (channel & 0x0F), program & 0x7F];
        proof {
            assert(data@ =~= seq![(0xC0u8 | (channel & 0x0F)) as u8, program & 0x7F]);
        }
        Self { tick, data }
    }

    /// A set-tempo meta event: the microseconds per beat at the given
    /// tempo (thousandths of a beat per minute), big-endian in three
    /// bytes.
    pub fn tempo(tick: u64, tempo_milli_bpm: u32) -> (r: Self)
        requires
            tempo_milli_bpm >= 3_580,
        ensures
            r.tick == tick,
            r.data@.len() == 6,
            r.data@[0] == 0xFFu8 && r.data@[1] == 0x51u8 && r.data@[2] == 0x03u8,
            r.data@[3] == (60_000_000_000int / tempo_milli_bpm as int) / 0x1_0000 % 0x100,
            r.data@[4] == (60_000_000_000int / tempo_milli_bpm as int) / 0x100 % 0x100,
            r.data@[5] == (60_000_000_000int / tempo_milli_bpm as int) % 0x100,
    {
        let micros: u64 = 60_000_000_000u64 / tempo_milli_bpm as u64;
        proof {
            // Below 3.58 BPM the beat length would no longer fit three
            // bytes; the tempo floor keeps it inside.
            vstd::arithmetic::div_mod::lemma_div_is_ordered_by_denominator(
                60_000_000_000, 3_580, tempo_milli_bpm as int);
        }
        let b0 = ((micros / 0x1_0000) % 0x100) as u8;
        let b1 = ((micros / 0x100) % 0x100) as u8;
        let b2 = (micros % 0x100) as u8;
        let data: Vec<u8> = vec![0xFF, 0x51, 0x03, b0, b1, b2];
        proof {
            assert(data@ =~= seq![0xFFu8, 0x51u8, 0x03u8, b0, b1, b2]);
        }
        Self { tick, data }
    }

    /// A time-signature meta event: the numerator, the denominator as a
    /// power of two, 24 clocks per metronome click and 8 thirty-second
    /// notes per beat.
    pub fn time_signature(tick: u64, numerator: u8, denominator: u8) -> (r: Self)
        ensures
            r.tick == tick,
            r.data@.len() == 7,
            r.data@[0] == 0xFFu8 && r.data@[1] == 0x58u8 && r.data@[2] == 0x04u8,
            r.data@[3] == numerator,
            r.data@[4] == spec_log2_floor(denominator as int),
            r.data@[5] == 24u8 && r.data@[6] == 8u8,
    {
        let denom_power = log2_floor(denominator);
        let data: Vec<u8> = vec![0xFF, 0x58, 0x04, numerator, denom_power, 24, 8];
        proof {
            assert(data@ =~= seq![0xFFu8, 0x58u8, 0x04u8, numerator, denom_power, 24u8, 8u8]);
        }
        Self { tick, data }
    }

    /// The end-of-track meta event.
    pub fn end_of_track(tick: u64) -> (r: Self)
        ensures
            r.tick == tick,
            r.data@ == seq![0xFFu8, 0x2Fu8, 0x00u8],
    {
        let data: Vec<u8> = vec![0xFF, 0x2F, 0x00];
        proof {
            assert(data@ =~= seq![0xFFu8, 0x2Fu8, 0x00u8]);
        }
        Self { tick, data }
    }
}

/// The largest power of two at most `v` (zero for zero), as an exponent.
pub open spec fn spec_log2_floor(v: int) -> int
    decreases v,
{
    if v <= 1 {
        0
    } else {
        1 + spec_log2_floor(v / 2)
    }
}

/// The floor base-two logarithm of a byte.
fn log2_floor(v: u8) -> (r: u8)
    ensures
        r == spec_log2_floor(v as int),
        r <= 7,
{
    proof {
        vstd::arithmetic::power2::lemma2_to64();
        lemma_log2_floor_below(v as int, 7);
    }
    let mut value = v;
    let mut power: u8 = 0;
    while value > 1
        invariant
            power + spec_log2_floor(value as int) == spec_log2_floor(v as int),
            spec_log2_floor(v as int) <= 7,
        decreases value,
    {
        proof {
            assert(spec_log2_floor(value as int)
                == 1 + spec_log2_floor(value as int / 2));
            lemma_log2_floor_nonneg(value as int / 2);
            assert(power < 7);
        }
        value = value / 2;
        power = power + 1;
    }
    power
}

/// The floor logarithm is never negative.
proof fn lemma_log2_floor_nonneg(v: int)
    ensures
        spec_log2_floor(v) >= 0,
    decreases v,
{
    if v > 1 {
        lemma_log2_floor_nonneg(v / 2);
    }
}

/// A value below two to the `k + 1` has a floor logarithm of at most `k`.
proof fn lemma_log2_floor_below(v: int, k: nat)
    requires
        v < vstd::arithmetic::power2::pow2((k + 1) as nat),
    ensures
        spec_log2_floor(v) <= k,
    decreases k,
{
    if v > 1 {
        vstd::arithmetic::power2::lemma_pow2_unfold((k + 1) as nat);
        if k >= 1 {
            lemma_log2_floor_below(v / 2, (k - 1) as nat);
        } else {
            vstd::arithmetic::power2::lemma_pow2_unfold(1);
            assert(vstd::arithmetic::power2::pow2(0) == 1) by {
                vstd::arithmetic::power2::lemma2_to64();
            }
        }
    }
}

} // verus!
