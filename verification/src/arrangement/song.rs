//! Song mode for linear arrangement playback.
//!
//! Provides ordered arrangement of parts with auto-advance, loop regions,
//! and position tracking.

use vstd::prelude::*;

verus! {

/// Song playback mode
#[derive(Debug, Clone, Copy, PartialEq, Eq, Structural)]
pub enum SongMode {
    /// Stopped
    Stopped,
    /// Playing through arrangement
    Playing,
    /// Looping a section
    Looping,
    /// Recording arrangement
    Recording,
}

impl Default for SongMode {
    /// Songs start stopped.
    fn default() -> (r: Self)
        ensures
            r == SongMode::Stopped,
    {
        SongMode::Stopped
    }
}

/// Position within the song
#[derive(Debug, Clone, Copy, PartialEq, Eq, Structural)]
pub struct SongPosition {
    /// Current section index
    pub section: usize,
    /// Bar within section (0-indexed)
    pub bar: u32,
    /// Beat within bar (0-indexed)
    pub beat: u32,
    /// Tick within beat
    pub tick: u32,
}

impl Default for SongPosition {
    /// The start of the first section.
    fn default() -> (r: Self)
        ensures
            r == (SongPosition { section: 0, bar: 0, beat: 0, tick: 0 }),
    {
        Self { section: 0, bar: 0, beat: 0, tick: 0 }
    }
}

/// Ticks from the song start to a position: the whole preceding
/// sections, then bars, beats and ticks into the current one.
pub open spec fn spec_position_ticks(pos: SongPosition, ppqn: int, beats_per_bar: int,
    section_lengths: Seq<u32>) -> int {
    spec_sections_ticks(section_lengths, pos.section as int, ppqn, beats_per_bar)
        + pos.bar * beats_per_bar * ppqn + pos.beat * ppqn + pos.tick
}

/// Total ticks of the first `n` listed sections.
pub open spec fn spec_sections_ticks(lengths: Seq<u32>, n: int, ppqn: int,
    beats_per_bar: int) -> int
    decreases n,
{
    if n <= 0 || lengths.len() == 0 {
        0
    } else if n > lengths.len() {
        spec_sections_ticks(lengths, lengths.len() as int, ppqn, beats_per_bar)
    } else {
        spec_sections_ticks(lengths, n - 1, ppqn, beats_per_bar)
            + lengths[n - 1] * beats_per_bar * ppqn
    }
}

impl SongPosition {
    /// Create a new position
    pub fn new(section: usize, bar: u32, beat: u32, tick: u32) -> (r: Self)
        ensures
            r == (SongPosition { section, bar, beat, tick }),
    {
        Self { section, bar, beat, tick }
    }

    /// Create position at section start
    pub fn at_section(section: usize) -> (r: Self)
        ensures
            r == (SongPosition { section, bar: 0, beat: 0, tick: 0 }),
    {
        Self::new(section, 0, 0, 0)
    }

    /// The display text of a position: the one-based section, bar and
    /// beat, and the two-digit tick.
    pub open spec fn spec_format(self) -> Seq<char> {
        "S"@ + crate::text::spec_dec(self.section + 1)
            + ":"@ + crate::text::spec_dec(self.bar + 1)
            + "."@ + crate::text::spec_dec(self.beat + 1)
            + "."@ + crate::text::spec_dec2(self.tick as int)
    }

    /// Format position as string
    pub fn format(&self) -> (r: String)
        requires
            self.section < usize::MAX,
        ensures
            r@ == self.spec_format(),
    {
        proof {
            reveal_strlit("S");
            reveal_strlit(":");
            reveal_strlit(".");
        }
        let mut s = ("S").to_owned();
        let sec = crate::text::dec_u64(self.section as u64 + 1);
        s.append(sec.as_str());
        s.append(":");
        let bar = crate::text::dec_u64(self.bar as u64 + 1);
        s.append(bar.as_str());
        s.append(".");
        let beat = crate::text::dec_u64(self.beat as u64 + 1);
        s.append(beat.as_str());
        s.append(".");
        let tick = crate::text::dec2_u64(self.tick as u64);
        s.append(tick.as_str());
        proof {
            assert(s@ =~= self.spec_format());
        }
        s
    }

    /// Total ticks from the song start, saturating at the 64-bit limit.
    pub fn to_ticks(&self, ppqn: u32, beats_per_bar: u32, section_lengths: &[u32])
        -> (r: u64)
        ensures
            r == crate::spec_clamp(
                spec_position_ticks(*self, ppqn as int, beats_per_bar as int,
                    section_lengths@),
                0, u64::MAX as int),
    {
        let cap: u128 = u64::MAX as u128;
        let mut total: u128 = 0;

        // Add complete sections
        let upto = if self.section < section_lengths.len() {
            self.section
        } else {
            section_lengths.len()
        };
        let ghost full = spec_sections_ticks(section_lengths@, self.section as int,
            ppqn as int, beats_per_bar as int);
        let mut i: usize = 0;
        while i < upto
            invariant
                0 <= i <= upto,
                upto <= section_lengths@.len(),
                total == crate::spec_clamp(
                    spec_sections_ticks(section_lengths@, i as int,
                        ppqn as int, beats_per_bar as int),
                    0, u64::MAX as int),
                total <= u64::MAX,
            decreases upto - i,
        {
            proof {
                lemma_sections_ticks_nonneg(section_lengths@, i as int,
                    ppqn as int, beats_per_bar as int);
                vstd::arithmetic::mul::lemma_mul_nonnegative(
                    section_lengths@[i as int] as int, beats_per_bar as int);
                vstd::arithmetic::mul::lemma_mul_upper_bound(
                    section_lengths@[i as int] as int, 0x1_0000_0000,
                    beats_per_bar as int, 0x1_0000_0000);
                vstd::arithmetic::mul::lemma_mul_nonnegative(
                    section_lengths@[i as int] as int * beats_per_bar as int, ppqn as int);
                vstd::arithmetic::mul::lemma_mul_upper_bound(
                    section_lengths@[i as int] as int * beats_per_bar as int,
                    0x1_0000_0000_0000_0000, ppqn as int, 0x1_0000_0000);
            }
            let bars = section_lengths[i];
            let add: u128 = bars as u128 * beats_per_bar as u128 * ppqn as u128;
            total = total + add;
            if total > cap {
                total = cap;
            }
            i = i + 1;
        }
        proof {
            lemma_sections_ticks_nonneg(section_lengths@, upto as int,
                ppqn as int, beats_per_bar as int);
            if self.section as int >= section_lengths@.len() {
                assert(spec_sections_ticks(section_lengths@, self.section as int,
                    ppqn as int, beats_per_bar as int)
                    == spec_sections_ticks(section_lengths@,
                        section_lengths@.len() as int, ppqn as int, beats_per_bar as int));
            }
            vstd::arithmetic::mul::lemma_mul_nonnegative(
                self.bar as int, beats_per_bar as int);
            vstd::arithmetic::mul::lemma_mul_upper_bound(
                self.bar as int, 0x1_0000_0000, beats_per_bar as int, 0x1_0000_0000);
            vstd::arithmetic::mul::lemma_mul_nonnegative(
                self.bar as int * beats_per_bar as int, ppqn as int);
            vstd::arithmetic::mul::lemma_mul_upper_bound(
                self.bar as int * beats_per_bar as int, 0x1_0000_0000_0000_0000,
                ppqn as int, 0x1_0000_0000);
            vstd::arithmetic::mul::lemma_mul_nonnegative(self.beat as int, ppqn as int);
            vstd::arithmetic::mul::lemma_mul_upper_bound(
                self.beat as int, 0x1_0000_0000, ppqn as int, 0x1_0000_0000);
        }
        // Add bars, beats, ticks in the current section
        let mut total = total
            + self.bar as u128 * beats_per_bar as u128 * ppqn as u128
            + self.beat as u128 * ppqn as u128
            + self.tick as u128;

        if total > cap {
            u64::MAX
        } else {
            total as u64
        }
    }
}

/// The whole-section total is never negative.
proof fn lemma_sections_ticks_nonneg(lengths: Seq<u32>, n: int, ppqn: int, beats_per_bar: int)
    requires
        ppqn >= 0,
        beats_per_bar >= 0,
    ensures
        spec_sections_ticks(lengths, n, ppqn, beats_per_bar) >= 0,
    decreases (if n > lengths.len() { lengths.len() as int + 1 } else if n > 0 { n } else { 0int }),
{
    if n <= 0 || lengths.len() == 0 {
    } else if n > lengths.len() {
        lemma_sections_ticks_nonneg(lengths, lengths.len() as int, ppqn, beats_per_bar);
    } else {
        lemma_sections_ticks_nonneg(lengths, n - 1, ppqn, beats_per_bar);
        vstd::arithmetic::mul::lemma_mul_nonnegative(lengths[n - 1] as int, beats_per_bar);
        vstd::arithmetic::mul::lemma_mul_nonnegative(
            lengths[n - 1] as int * beats_per_bar, ppqn);
    }
}

/// Loop region for song
#[derive(Debug, Clone, Copy, PartialEq, Eq, Structural)]
pub struct LoopRegion {
    /// Start section index
    pub start_section: usize,
    /// End section index (inclusive)
    pub end_section: usize,
    /// Number of times to loop (None = infinite)
    pub repeat_count: Option<u32>,
    /// Current repeat number
    pub current_repeat: u32,
}

impl LoopRegion {
    /// Create a loop region without a repeat limit.
    pub fn new(start: usize, end: usize) -> (r: Self)
        ensures
            r == (LoopRegion {
                start_section: start,
                end_section: end,
                repeat_count: None,
                current_repeat: 0,
            }),
    {
        Self { start_section: start, end_section: end, repeat_count: None, current_repeat: 0 }
    }

    /// Create a loop region that repeats a fixed number of times.
    pub fn with_count(start: usize, end: usize, count: u32) -> (r: Self)
        ensures
            r == (LoopRegion {
                start_section: start,
                end_section: end,
                repeat_count: Some(count),
                current_repeat: 0,
            }),
    {
        Self {
            start_section: start,
            end_section: end,
            repeat_count: Some(count),
            current_repeat: 0,
        }
    }

    /// Whether the loop has run its repeats: never for an unlimited loop.
    pub fn is_done(&self) -> (r: bool)
        ensures
            r == match self.repeat_count {
                Some(count) => self.current_repeat >= count,
                None => false,
            },
    {
        match self.repeat_count {
            Some(count) => self.current_repeat >= count,
            None => false,
        }
    }
}

/// A section in the song arrangement
#[derive(Debug)]
pub struct SongSection {
    /// Part name to play
    pub part_name: String,
    /// Length in bars (at least one)
    pub length_bars: u32,
    /// Scene index to trigger (optional)
    pub scene_index: Option<usize>,
    /// Tempo for this section in thousandths of a beat per minute
    /// (None = keep current)
    pub tempo_milli_bpm: Option<u32>,
    /// Time signature numerator
    pub time_sig_num: u8,
    /// Time signature denominator
    pub time_sig_denom: u8,
    /// Whether this section is a loop point
    pub is_loop_point: bool,
}

impl SongSection {
    /// Create a section playing the named part for a number of bars; a
    /// zero length is lifted to one bar.
    pub fn new(part_name: String, length_bars: u32) -> (r: Self)
        ensures
            r.part_name@ == part_name@,
            r.length_bars == if length_bars == 0 { 1int } else { length_bars as int },
            r.scene_index is None,
            r.tempo_milli_bpm is None,
            r.time_sig_num == 4,
            r.time_sig_denom == 4,
            !r.is_loop_point,
    {
        Self {
            part_name,
            length_bars: if length_bars == 0 { 1 } else { length_bars },
            scene_index: None,
            tempo_milli_bpm: None,
            time_sig_num: 4,
            time_sig_denom: 4,
            is_loop_point: false,
        }
    }
}

/// A complete song arrangement: named sections in playing order.
#[derive(Debug)]
pub struct Song {
    /// Song name
    pub name: String,
    /// Song sections
    pub sections: Vec<SongSection>,
    /// Default tempo in thousandths of a beat per minute
    pub default_tempo_milli_bpm: u32,
    /// Default time signature
    pub default_beats_per_bar: u8,
}

impl Song {
    /// The sections in order.
    pub closed spec fn spec_sections(self) -> Seq<SongSection> {
        self.sections@
    }

    /// The default time-signature numerator.
    pub closed spec fn spec_beats_per_bar(self) -> int {
        self.default_beats_per_bar as int
    }

    /// Every section at least one bar long and a sane default signature.
    pub open spec fn wf(self) -> bool {
        &&& forall|i: int| 0 <= i < self.spec_sections().len()
            ==> (#[trigger] self.spec_sections()[i]).length_bars >= 1
        &&& 1 <= self.spec_beats_per_bar()
    }

    /// Create a new empty song at 120 BPM in 4/4.
    pub fn new(name: String) -> (r: Self)
        ensures
            r.wf(),
            r.name@ == name@,
            r.spec_sections().len() == 0,
            r.default_tempo_milli_bpm == 120_000,
            r.default_beats_per_bar == 4,
    {
        Self {
            name,
            sections: Vec::new(),
            default_tempo_milli_bpm: 120_000,
            default_beats_per_bar: 4,
        }
    }

    /// Add a section at the end.
    pub fn add_section(&mut self, section: SongSection)
        requires
            old(self).wf(),
            section.length_bars >= 1,
        ensures
            final(self).wf(),
            final(self).spec_sections() == old(self).spec_sections().push(section),
    {
        let ghost before = self.sections@;
        self.sections.push(section);
        proof {
            assert forall|i: int| 0 <= i < self.sections@.len()
                implies (#[trigger] self.sections@[i]).length_bars >= 1 by {
                if i < before.len() {
                    assert(self.sections@[i] == before[i]);
                }
            }
        }
    }

    /// The section at an index.
    pub fn get_section(&self, index: usize) -> (r: Option<&SongSection>)
        ensures
            match r {
                Some(s) => index < self.spec_sections().len()
                    && *s == self.spec_sections()[index as int],
                None => index >= self.spec_sections().len(),
            },
    {
        if index < self.sections.len() {
            Some(&self.sections[index])
        } else {
            None
        }
    }

    /// Number of sections
    pub fn section_count(&self) -> (r: usize)
        ensures
            r == self.spec_sections().len(),
    {
        self.sections.len()
    }

    /// Total length in bars, saturating at the 64-bit limit.
    pub fn total_bars(&self) -> (r: u64)
        ensures
            r == crate::spec_clamp(
                spec_total_bars(self.spec_sections(), self.spec_sections().len() as int),
                0, u64::MAX as int),
    {
        let n = self.sections.len();
        let mut total: u64 = 0;
        let mut i: usize = 0;
        while i < n
            invariant
                0 <= i <= n,
                n == self.spec_sections().len(),
                total == crate::spec_clamp(
                    spec_total_bars(self.spec_sections(), i as int), 0, u64::MAX as int),
            decreases n - i,
        {
            proof {
                lemma_total_bars_nonneg(self.spec_sections(), i as int);
            }
            let bars = self.sections[i].length_bars as u64;
            total = if total <= u64::MAX - bars { total + bars } else { u64::MAX };
            i = i + 1;
        }
        proof {
            lemma_total_bars_nonneg(self.spec_sections(), n as int);
        }
        total
    }

    /// The section lengths, in bars, in order.
    pub fn section_lengths(&self) -> (r: Vec<u32>)
        ensures
            r@.len() == self.spec_sections().len(),
            forall|i: int| 0 <= i < r@.len()
                ==> #[trigger] r@[i] == self.spec_sections()[i].length_bars,
    {
        let n = self.sections.len();
        let mut r: Vec<u32> = Vec::new();
        let mut i: usize = 0;
        while i < n
            invariant
                0 <= i <= n,
                n == self.spec_sections().len(),
                r@.len() == i,
                forall|j: int| 0 <= j < i
                    ==> #[trigger] r@[j] == self.spec_sections()[j].length_bars,
            decreases n - i,
        {
            r.push(self.sections[i].length_bars);
            i = i + 1;
        }
        r
    }

    /// The position a tick falls at, walking whole sections first; past
    /// the end the position stays in the last section. The bar, beat and
    /// tick fields split what is left after the walk by bar and beat.
    pub fn position_from_tick(&self, tick: u64, ppqn: u32) -> (r: SongPosition)
        requires
            self.wf(),
            ppqn >= 1,
        ensures
            r.section <= self.spec_sections().len(),
            ({
                let tpb = ppqn as int * self.spec_beats_per_bar();
                let n = self.spec_sections().len() as int;
                let idx = spec_section_walk(self.spec_sections(), 0, tick as int, tpb);
                let rem = spec_section_walk_rem(self.spec_sections(), 0, tick as int, tpb);
                &&& r.section == if idx >= n && n > 0 { n - 1 } else { idx }
                &&& r.bar == crate::spec_clamp(rem / tpb, 0, 0xFFFF_FFFF)
                &&& r.beat == crate::spec_clamp((rem % tpb) / (ppqn as int), 0, 0xFFFF_FFFF)
                &&& r.tick == crate::spec_clamp((rem % tpb) % (ppqn as int), 0, 0xFFFF_FFFF)
            }),
    {
        let beats_per_bar = self.default_beats_per_bar as u64;
        let ticks_per_beat = ppqn as u64;
        proof {
            vstd::arithmetic::mul::lemma_mul_strictly_positive(
                ticks_per_beat as int, beats_per_bar as int);
            vstd::arithmetic::mul::lemma_mul_upper_bound(
                ticks_per_beat as int, 0x1_0000_0000, beats_per_bar as int, 256);
        }
        let ticks_per_bar = ticks_per_beat * beats_per_bar;

        let mut remaining = tick;
        let mut section_idx: usize = 0;
        let n = self.sections.len();
        let mut done = false;

        while section_idx < n && !done
            invariant
                0 <= section_idx <= n,
                n == self.spec_sections().len(),
                ticks_per_bar >= 1,
                ticks_per_bar <= 0x100_0000_0000,
                ticks_per_bar == ppqn as int * self.spec_beats_per_bar(),
                self.wf(),
                spec_section_walk(self.spec_sections(), 0, tick as int, ticks_per_bar as int)
                    == spec_section_walk(self.spec_sections(), section_idx as int,
                        remaining as int, ticks_per_bar as int),
                spec_section_walk_rem(self.spec_sections(), 0, tick as int,
                    ticks_per_bar as int)
                    == spec_section_walk_rem(self.spec_sections(), section_idx as int,
                        remaining as int, ticks_per_bar as int),
                done ==> section_idx < n && (remaining as int)
                    < self.spec_sections()[section_idx as int].length_bars * ticks_per_bar,
            decreases n - section_idx, (if done { 0int } else { 1int }),
        {
            let bars = self.sections[section_idx].length_bars;
            proof {
                vstd::arithmetic::mul::lemma_mul_nonnegative(
                    bars as int, ticks_per_bar as int);
                vstd::arithmetic::mul::lemma_mul_upper_bound(
                    bars as int, 0x1_0000_0000, ticks_per_bar as int, 0x100_0000_0000);
            }
            let section_ticks_wide: u128 = bars as u128 * ticks_per_bar as u128;
            if (remaining as u128) < section_ticks_wide {
                done = true;
            } else {
                remaining = remaining - section_ticks_wide as u64;
                section_idx = section_idx + 1;
            }
        }
        proof {
            if done {
                assert(spec_section_walk(self.spec_sections(), section_idx as int,
                    remaining as int, ticks_per_bar as int) == section_idx as int);
                assert(spec_section_walk_rem(self.spec_sections(), section_idx as int,
                    remaining as int, ticks_per_bar as int) == remaining as int);
            } else {
                assert(section_idx == n);
                assert(spec_section_walk(self.spec_sections(), section_idx as int,
                    remaining as int, ticks_per_bar as int) == section_idx as int);
                assert(spec_section_walk_rem(self.spec_sections(), section_idx as int,
                    remaining as int, ticks_per_bar as int) == remaining as int);
            }
        }

        // Past the end, stay in the last section
        let section = if section_idx >= n && n > 0 {
            n - 1
        } else {
            section_idx
        };

        let bars = remaining / ticks_per_bar;
        let remaining = remaining % ticks_per_bar;
        let beats = remaining / ticks_per_beat;
        let ticks = remaining % ticks_per_beat;

        SongPosition {
            section,
            bar: if bars > 0xFFFF_FFFF { 0xFFFF_FFFF } else { bars as u32 },
            beat: if beats > 0xFFFF_FFFF { 0xFFFF_FFFF } else { beats as u32 },
            tick: if ticks > 0xFFFF_FFFF { 0xFFFF_FFFF } else { ticks as u32 },
        }
    }
}

/// The bar lengths of the listed sections, in order.
pub open spec fn spec_lengths(sections: Seq<SongSection>) -> Seq<u32> {
    Seq::new(sections.len(), |i: int| sections[i].length_bars)
}

/// The index of the section a tick falls in, walking from section `k`
/// with `tick` ticks to place: `sections.len()` once every section is
/// passed. `tpb` is the tick length of one bar.
pub open spec fn spec_section_walk(sections: Seq<SongSection>, k: int, tick: int,
    tpb: int) -> int
    decreases sections.len() - k,
{
    if k < 0 || k >= sections.len() {
        k
    } else if tick < sections[k].length_bars * tpb {
        k
    } else {
        spec_section_walk(sections, k + 1, tick - sections[k].length_bars * tpb, tpb)
    }
}

/// The ticks left inside the section `spec_section_walk` lands in.
pub open spec fn spec_section_walk_rem(sections: Seq<SongSection>, k: int, tick: int,
    tpb: int) -> int
    decreases sections.len() - k,
{
    if k < 0 || k >= sections.len() {
        tick
    } else if tick < sections[k].length_bars * tpb {
        tick
    } else {
        spec_section_walk_rem(sections, k + 1, tick - sections[k].length_bars * tpb, tpb)
    }
}

/// Total bars of the first `n` sections.
pub open spec fn spec_total_bars(sections: Seq<SongSection>, n: int) -> int
    decreases n,
{
    if n <= 0 {
        0
    } else {
        spec_total_bars(sections, n - 1) + sections[n - 1].length_bars
    }
}

/// The bar total is never negative.
proof fn lemma_total_bars_nonneg(sections: Seq<SongSection>, n: int)
    ensures
        spec_total_bars(sections, n) >= 0,
    decreases n,
{
    if n > 0 {
        lemma_total_bars_nonneg(sections, n - 1);
    }
}

/// Song player for arrangement playback
pub struct SongPlayer {
    /// Current song
    song: Option<Song>,
    /// Playback mode
    mode: SongMode,
    /// Current position in ticks
    position_ticks: u64,
    /// Current section index
    current_section: usize,
    /// Loop region (if any)
    loop_region: Option<LoopRegion>,
    /// PPQN for timing calculations
    ppqn: u32,
}

impl SongPlayer {
    /// Whether a song is loaded.
    pub closed spec fn spec_has_song(self) -> bool {
        self.song is Some
    }

    /// The playback mode.
    pub closed spec fn spec_mode(self) -> SongMode {
        self.mode
    }

    /// The position in ticks.
    pub closed spec fn spec_position_ticks(self) -> int {
        self.position_ticks as int
    }

    /// The current section index.
    pub closed spec fn spec_current_section(self) -> int {
        self.current_section as int
    }

    /// The loop region, if any.
    pub closed spec fn spec_loop_region(self) -> Option<LoopRegion> {
        self.loop_region
    }

    /// The resolution in pulses per quarter note.
    pub closed spec fn spec_ppqn(self) -> int {
        self.ppqn as int
    }

    /// The loaded song, if any.
    pub closed spec fn spec_song(self) -> Option<Song> {
        self.song
    }

    /// A resolution of at least one pulse and a well-formed loaded song.
    pub open spec fn wf(self) -> bool {
        &&& self.spec_ppqn() >= 1
        &&& match self.spec_song() {
            Some(song) => song.wf(),
            None => true,
        }
    }

    /// Create a song player; a zero resolution is lifted to one.
    pub fn new(ppqn: u32) -> (r: Self)
        ensures
            r.wf(),
            !r.spec_has_song(),
            r.spec_mode() == SongMode::Stopped,
            r.spec_position_ticks() == 0,
            r.spec_current_section() == 0,
            r.spec_loop_region() is None,
    {
        Self {
            song: None,
            mode: SongMode::Stopped,
            position_ticks: 0,
            current_section: 0,
            loop_region: None,
            ppqn: if ppqn == 0 { 1 } else { ppqn },
        }
    }

    /// Load a song and stop at its start.
    pub fn load(&mut self, song: Song)
        requires
            old(self).wf(),
            song.wf(),
        ensures
            final(self).wf(),
            final(self).spec_has_song(),
            final(self).spec_mode() == SongMode::Stopped,
            final(self).spec_position_ticks() == 0,
            final(self).spec_current_section() == 0,
    {
        self.song = Some(song);
        self.stop();
    }

    /// Unload the current song.
    pub fn unload(&mut self)
        requires
            old(self).wf(),
        ensures
            final(self).wf(),
            !final(self).spec_has_song(),
            final(self).spec_mode() == SongMode::Stopped,
    {
        self.song = None;
        self.stop();
    }

    /// Get playback mode
    pub fn mode(&self) -> (r: SongMode)
        ensures
            r == self.spec_mode(),
    {
        self.mode
    }

    /// Start playback when a song is loaded.
    pub fn play(&mut self)
        requires
            old(self).wf(),
        ensures
            final(self).wf(),
            old(self).spec_has_song() ==> final(self).spec_mode() == SongMode::Playing,
            !old(self).spec_has_song() ==> *final(self) == *old(self),
            final(self).spec_position_ticks() == old(self).spec_position_ticks(),
    {
        if self.song.is_some() {
            self.mode = SongMode::Playing;
        }
    }

    /// Stop playback and rewind to the first section; a loop region's
    /// repeats start over.
    pub fn stop(&mut self)
        requires
            old(self).wf(),
        ensures
            final(self).wf(),
            final(self).spec_mode() == SongMode::Stopped,
            final(self).spec_position_ticks() == 0,
            final(self).spec_current_section() == 0,
            final(self).spec_has_song() == old(self).spec_has_song(),
    {
        self.mode = SongMode::Stopped;
        self.position_ticks = 0;
        self.current_section = 0;
        match &mut self.loop_region {
            Some(region) => {
                region.current_repeat = 0;
            },
            None => {},
        }
    }

    /// Pause playback, keeping the position.
    pub fn pause(&mut self)
        requires
            old(self).wf(),
        ensures
            final(self).wf(),
            old(self).spec_mode() == SongMode::Playing
                ==> final(self).spec_mode() == SongMode::Stopped,
            old(self).spec_mode() != SongMode::Playing ==> *final(self) == *old(self),
            final(self).spec_position_ticks() == old(self).spec_position_ticks(),
    {
        if self.mode == SongMode::Playing {
            self.mode = SongMode::Stopped;
        }
    }

    /// Resume playback from the kept position.
    pub fn resume(&mut self)
        requires
            old(self).wf(),
        ensures
            final(self).wf(),
            old(self).spec_has_song() && old(self).spec_mode() == SongMode::Stopped
                ==> final(self).spec_mode() == SongMode::Playing,
            final(self).spec_position_ticks() == old(self).spec_position_ticks(),
    {
        if self.song.is_some() && self.mode == SongMode::Stopped {
            self.mode = SongMode::Playing;
        }
    }

    /// Get position in ticks
    pub fn position_ticks(&self) -> (r: u64)
        ensures
            r == self.spec_position_ticks(),
    {
        self.position_ticks
    }

    /// Get current section
    pub fn current_section(&self) -> (r: usize)
        ensures
            r == self.spec_current_section(),
    {
        self.current_section
    }

    /// Jump to the start of a section; an index past the end is ignored.
    pub fn goto_section(&mut self, index: usize)
        requires
            old(self).wf(),
        ensures
            final(self).wf(),
            final(self).spec_has_song() == old(self).spec_has_song(),
            final(self).spec_mode() == old(self).spec_mode(),
            match old(self).spec_song() {
                Some(song) => if index < song.spec_sections().len() {
                    &&& final(self).spec_current_section() == index
                    &&& final(self).spec_position_ticks() == crate::spec_clamp(
                        spec_sections_ticks(spec_lengths(song.spec_sections()),
                            index as int, old(self).spec_ppqn(),
                            song.spec_beats_per_bar()),
                        0, u64::MAX as int)
                    &&& final(self).spec_song() == old(self).spec_song()
                    &&& final(self).spec_loop_region() == old(self).spec_loop_region()
                    &&& final(self).spec_ppqn() == old(self).spec_ppqn()
                } else {
                    *final(self) == *old(self)
                },
                None => *final(self) == *old(self),
            },
    {
        let lengths = match &self.song {
            Some(song) => {
                if index < song.section_count() {
                    Some(song.section_lengths())
                } else {
                    None
                }
            },
            None => None,
        };
        match lengths {
            Some(lengths) => {
                let beats = match &self.song {
                    Some(song) => song.default_beats_per_bar as u32,
                    None => 4,
                };
                self.current_section = index;
                self.position_ticks = SongPosition::at_section(index)
                    .to_ticks(self.ppqn, beats, lengths.as_slice());
                proof {
                    match old(self).spec_song() {
                        Some(song) => {
                            assert(lengths@ =~= spec_lengths(song.spec_sections()));
                            let pos = SongPosition { section: index, bar: 0, beat: 0, tick: 0 };
                            assert(pos.bar * (beats as int) * (self.ppqn as int) == 0)
                                by (nonlinear_arith)
                                requires pos.bar == 0,
                            ;
                            assert(spec_position_ticks(pos, self.ppqn as int, beats as int,
                                lengths@) == spec_sections_ticks(lengths@,
                                    pos.section as int, self.ppqn as int, beats as int)
                                + pos.bar * (beats as int) * (self.ppqn as int)
                                + pos.beat * (self.ppqn as int) + pos.tick);
                            assert(pos.beat * (self.ppqn as int) == 0) by (nonlinear_arith)
                                requires pos.beat == 0,
                            ;
                            assert(spec_position_ticks(pos, self.ppqn as int, beats as int,
                                lengths@) == spec_sections_ticks(lengths@, index as int,
                                    self.ppqn as int, beats as int));
                            assert(beats as int == song.spec_beats_per_bar());
                        },
                        None => {},
                    }
                }
            },
            None => {},
        }
    }

    /// Set a loop region over a section range; looping starts at once.
    pub fn set_loop(&mut self, start: usize, end: usize, count: Option<u32>)
        requires
            old(self).wf(),
        ensures
            final(self).wf(),
            final(self).spec_loop_region() == Some(LoopRegion {
                start_section: start,
                end_section: end,
                repeat_count: count,
                current_repeat: 0,
            }),
            final(self).spec_mode() == SongMode::Looping,
    {
        self.loop_region = Some(LoopRegion {
            start_section: start,
            end_section: end,
            repeat_count: count,
            current_repeat: 0,
        });
        self.mode = SongMode::Looping;
    }

    /// Clear the loop region; a looping player goes back to plain play.
    pub fn clear_loop(&mut self)
        requires
            old(self).wf(),
        ensures
            final(self).wf(),
            final(self).spec_loop_region() is None,
            old(self).spec_mode() == SongMode::Looping
                ==> final(self).spec_mode() == SongMode::Playing,
    {
        self.loop_region = None;
        if self.mode == SongMode::Looping {
            self.mode = SongMode::Playing;
        }
    }

    /// The loop region, if any.
    pub fn loop_region(&self) -> (r: Option<&LoopRegion>)
        ensures
            match r {
                Some(region) => self.spec_loop_region() == Some(*region),
                None => self.spec_loop_region() is None,
            },
    {
        self.loop_region.as_ref()
    }

    /// Advance the player: the position moves by `ticks` (saturating);
    /// entering a new section reports it, the end of a loop region jumps
    /// back to its start until its repeats are done (a finished loop
    /// plays on), and a jump past the last section stops the player.
    pub fn update(&mut self, ticks: u64) -> (r: Option<usize>)
        requires
            old(self).wf(),
        ensures
            final(self).wf(),
            final(self).spec_ppqn() == old(self).spec_ppqn(),
            final(self).spec_song() == old(self).spec_song(),
            old(self).spec_mode() == SongMode::Stopped || !old(self).spec_has_song() ==> {
                &&& r is None
                &&& *final(self) == *old(self)
            },
            old(self).spec_mode() != SongMode::Stopped && old(self).spec_has_song() ==> {
                let song = old(self).spec_song()->0;
                let n = song.spec_sections().len() as int;
                let newpos = crate::spec_clamp(
                    old(self).spec_position_ticks() + ticks, 0, u64::MAX as int);
                let tpb = old(self).spec_ppqn() * song.spec_beats_per_bar();
                let idx = spec_section_walk(song.spec_sections(), 0, newpos, tpb);
                let new_section = if idx >= n { n - 1 } else { idx };
                if n == 0 {
                    r is None && *final(self) == *old(self)
                } else if new_section == old(self).spec_current_section() {
                    &&& r is None
                    &&& final(self).spec_position_ticks() == newpos
                    &&& final(self).spec_current_section()
                        == old(self).spec_current_section()
                    &&& final(self).spec_mode() == old(self).spec_mode()
                    &&& final(self).spec_loop_region() == old(self).spec_loop_region()
                } else {
                    match old(self).spec_loop_region() {
                        Some(region) => {
                            let bumped: u32 = if region.current_repeat < u32::MAX {
                                (region.current_repeat + 1) as u32
                            } else {
                                region.current_repeat
                            };
                            let wrapped = old(self).spec_current_section()
                                == region.end_section && new_section > region.end_section;
                            let done = wrapped && (match region.repeat_count {
                                Some(count) => bumped >= count,
                                None => false,
                            });
                            if wrapped && !done {
                                let start = region.start_section as int;
                                &&& final(self).spec_loop_region() == Some(
                                    (LoopRegion {
                                        start_section: region.start_section,
                                        end_section: region.end_section,
                                        repeat_count: region.repeat_count,
                                        current_repeat: if start < n { bumped } else { 0u32 },
                                    }))
                                &&& if start < n {
                                    &&& r == Some(region.start_section)
                                    &&& final(self).spec_current_section() == start
                                    &&& final(self).spec_position_ticks()
                                        == crate::spec_clamp(spec_sections_ticks(
                                            spec_lengths(song.spec_sections()), start,
                                            old(self).spec_ppqn(),
                                            song.spec_beats_per_bar()),
                                            0, u64::MAX as int)
                                    &&& final(self).spec_mode() == old(self).spec_mode()
                                } else {
                                    &&& r is None
                                    &&& final(self).spec_mode() == SongMode::Stopped
                                    &&& final(self).spec_position_ticks() == 0
                                    &&& final(self).spec_current_section() == 0
                                }
                            } else if wrapped {
                                &&& r == Some(new_section as usize)
                                &&& final(self).spec_current_section() == new_section
                                &&& final(self).spec_position_ticks() == newpos
                                &&& final(self).spec_mode() == SongMode::Playing
                                &&& final(self).spec_loop_region() == Some(
                                    (LoopRegion {
                                        start_section: region.start_section,
                                        end_section: region.end_section,
                                        repeat_count: region.repeat_count,
                                        current_repeat: bumped,
                                    }))
                            } else {
                                &&& r == Some(new_section as usize)
                                &&& final(self).spec_current_section() == new_section
                                &&& final(self).spec_position_ticks() == newpos
                                &&& final(self).spec_mode() == old(self).spec_mode()
                                &&& final(self).spec_loop_region()
                                    == old(self).spec_loop_region()
                            }
                        },
                        None => {
                            &&& r == Some(new_section as usize)
                            &&& final(self).spec_current_section() == new_section
                            &&& final(self).spec_position_ticks() == newpos
                            &&& final(self).spec_mode() == old(self).spec_mode()
                            &&& final(self).spec_loop_region() is None
                        },
                    }
                }
            },
    {
        if self.mode == SongMode::Stopped {
            return None;
        }
        let has_song = self.song.is_some();
        if !has_song {
            return None;
        }
        let section_count = match &self.song {
            Some(song) => song.section_count(),
            None => 0,
        };
        if section_count == 0 {
            return None;
        }

        self.position_ticks = if self.position_ticks <= u64::MAX - ticks {
            self.position_ticks + ticks
        } else {
            u64::MAX
        };

        // Find the section the new position falls in
        let new_section = match &self.song {
            Some(song) => song.position_from_tick(self.position_ticks, self.ppqn).section,
            None => 0,
        };

        if new_section != self.current_section {
            let old_section = self.current_section;
            self.current_section = new_section;

            // A loop region jumps back to its start until it is done
            let mut loop_done = false;
            let jump = match &mut self.loop_region {
                Some(region) => {
                    if old_section == region.end_section && new_section > region.end_section {
                        region.current_repeat = if region.current_repeat < u32::MAX {
                            region.current_repeat + 1
                        } else {
                            region.current_repeat
                        };
                        let done = match region.repeat_count {
                            Some(count) => region.current_repeat >= count,
                            None => false,
                        };
                        if !done {
                            Some(region.start_section)
                        } else {
                            loop_done = true;
                            None
                        }
                    } else {
                        None
                    }
                },
                None => None,
            };
            // A finished loop region plays on past its end
            if loop_done {
                self.mode = SongMode::Playing;
            }
            match jump {
                Some(start) => {
                    self.current_section = start;
                    self.goto_section(start);
                    if start >= section_count {
                        // The region starts past the end: stop
                        self.mode = SongMode::Stopped;
                        self.position_ticks = 0;
                        self.current_section = 0;
                        match &mut self.loop_region {
                            Some(region) => {
                                region.current_repeat = 0;
                            },
                            None => {},
                        }
                        return None;
                    }
                    return Some(start);
                },
                None => {},
            }

            return Some(self.current_section);
        }

        None
    }

    /// Whether the player has run past the last section (or has no song).
    pub fn is_at_end(&self) -> (r: bool)
        ensures
            r == match self.spec_song() {
                Some(song) => self.spec_current_section() >= song.spec_sections().len(),
                None => true,
            },
    {
        match &self.song {
            Some(song) => self.current_section >= song.section_count(),
            None => true,
        }
    }
}

} // verus!
