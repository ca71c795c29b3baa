//! Scale and key system for musical operations.
//!
//! Provides scale definitions, note-to-scale-degree mapping,
//! transposition within scales, and key relationships.

use vstd::prelude::*;

verus! {

/// MIDI note number type (0-127)
pub type MidiNote = u8;

/// Semitone offset type
pub type Semitones = i8;

/// Note names (pitch classes)
#[derive(Debug, Clone, Copy, PartialEq, Eq, Structural)]
pub enum Note {
    C,
    Cs, // C# / Db
    D,
    Ds, // D# / Eb
    E,
    F,
    Fs, // F# / Gb
    G,
    Gs, // G# / Ab
    A,
    As, // A# / Bb
    B,
}

impl Note {
    /// Pitch class of this note as a mathematical integer.
    pub open spec fn pc(self) -> int {
        match self {
            Note::C => 0,
            Note::Cs => 1,
            Note::D => 2,
            Note::Ds => 3,
            Note::E => 4,
            Note::F => 5,
            Note::Fs => 6,
            Note::G => 7,
            Note::Gs => 8,
            Note::A => 9,
            Note::As => 10,
            Note::B => 11,
        }
    }

    /// The note with the given pitch class.
    pub open spec fn spec_from_pc(pc: int) -> Note {
        if pc == 0 { Note::C }
        else if pc == 1 { Note::Cs }
        else if pc == 2 { Note::D }
        else if pc == 3 { Note::Ds }
        else if pc == 4 { Note::E }
        else if pc == 5 { Note::F }
        else if pc == 6 { Note::Fs }
        else if pc == 7 { Note::G }
        else if pc == 8 { Note::Gs }
        else if pc == 9 { Note::A }
        else if pc == 10 { Note::As }
        else { Note::B }
    }

    /// Get the pitch class (0-11) for this note
    pub fn pitch_class(self) -> (r: u8)
        ensures
            r == self.pc(),
    {
        match self {
            Note::C => 0,
            Note::Cs => 1,
            Note::D => 2,
            Note::Ds => 3,
            Note::E => 4,
            Note::F => 5,
            Note::Fs => 6,
            Note::G => 7,
            Note::Gs => 8,
            Note::A => 9,
            Note::As => 10,
            Note::B => 11,
        }
    }

    /// Get note from pitch class
    pub fn from_pitch_class(pc: u8) -> (r: Self)
        ensures
            r == Note::spec_from_pc(pc as int % 12),
    {
        match pc % 12 {
            0 => Note::C,
            1 => Note::Cs,
            2 => Note::D,
            3 => Note::Ds,
            4 => Note::E,
            5 => Note::F,
            6 => Note::Fs,
            7 => Note::G,
            8 => Note::Gs,
            9 => Note::A,
            10 => Note::As,
            _ => Note::B,
        }
    }

    /// Transpose by semitones
    pub fn transpose(self, semitones: Semitones) -> (r: Self)
        ensures
            r == Note::spec_from_pc((self.pc() + semitones) % 12),
            r.pc() == (self.pc() + semitones) % 12,
    {
        // Shift into nonnegative range before taking the remainder;
        // 144 is a multiple of 12, so the pitch class is unchanged.
        let x: i32 = self.pitch_class() as i32 + semitones as i32 + 144;
        assert(x >= 0);
        assert(x % 12 == (self.pc() + semitones) % 12) by {
            vstd::arithmetic::div_mod::lemma_mod_add_multiples_vanish(
                self.pc() + semitones, 12);
            assert(x == (self.pc() + semitones) + 12 * 12);
            vstd::arithmetic::div_mod::lemma_mod_add_multiples_vanish(
                (self.pc() + semitones) + 12, 12);
            vstd::arithmetic::div_mod::lemma_mod_add_multiples_vanish(
                (self.pc() + semitones) + 24, 12);
            assert((x - 36) % 12 == (self.pc() + semitones) % 12) by {
                lemma_mod_sub_12s(self.pc() + semitones, 9);
            }
        }
        let pc = (x % 12) as u8;
        Note::from_pitch_class(pc)
    }

    /// Get interval in semitones to another note (ascending)
    pub fn interval_to(self, other: Note) -> (r: u8)
        ensures
            r == (other.pc() - self.pc()) % 12,
            r < 12,
    {
        let a = self.pitch_class();
        let b = other.pitch_class();
        let d = (b as i32 + 12 - a as i32) % 12;
        assert(d == (other.pc() - self.pc()) % 12) by {
            vstd::arithmetic::div_mod::lemma_mod_add_multiples_vanish(
                other.pc() - self.pc(), 12);
        }
        d as u8
    }
}

/// (a + 12*k) % 12 == a % 12 for any k >= 0, stated step by step.
proof fn lemma_mod_sub_12s(a: int, k: nat)
    ensures
        (a + 12 * k) % 12 == a % 12,
    decreases k,
{
    if k > 0 {
        lemma_mod_sub_12s(a, (k - 1) as nat);
        vstd::arithmetic::div_mod::lemma_mod_add_multiples_vanish(
            a + 12 * (k - 1), 12);
        assert(a + 12 * k == (a + 12 * (k - 1)) + 12);
    }
}

/// ASCII whitespace, the set stripped from the ends of note and scale names.
pub open spec fn is_sp(c: char) -> bool {
    c == ' ' || c == '\t' || c == '\n' || c == '\r'
}

/// Characters ignored inside scale names.
pub open spec fn is_sep(c: char) -> bool {
    c == ' ' || c == '-' || c == '_'
}

/// Case-insensitive character match against a lower-case letter.
pub open spec fn ci(c: char, l: char) -> bool {
    c == l || ('A' <= c && c <= 'Z' && c as int + 32 == l as int)
}

/// Case-insensitive match of a whole sequence against a lower-case word.
pub open spec fn ci_eq(s: Seq<char>, w: Seq<char>) -> bool {
    s.len() == w.len() && forall|i: int| 0 <= i < s.len() ==> ci(s[i], #[trigger] w[i])
}

/// The input with ASCII whitespace stripped from both ends.
pub open spec fn spec_trim(s: Seq<char>) -> Seq<char>
    decreases s.len(),
{
    if s.len() == 0 {
        s
    } else if is_sp(s[0]) {
        spec_trim(s.drop_first())
    } else if is_sp(s.last()) {
        spec_trim(s.drop_last())
    } else {
        s
    }
}

/// Strip ASCII whitespace from both ends of the characters of `s`.
#[verifier::rlimit(50)]
fn trim_chars(s: &str) -> (r: Vec<char>)
    ensures
        r@ == spec_trim(s@),
{
    let n = s.unicode_len();
    let mut lo: usize = 0;
    let mut hi: usize = n;
    proof {
        assert(s@.subrange(0, n as int) =~= s@);
    }
    while lo < hi && is_sp_exec(s.get_char(lo))
        invariant
            0 <= lo <= hi <= n,
            n == s@.len(),
            spec_trim(s@) == spec_trim(s@.subrange(lo as int, hi as int)),
            hi == n,
        decreases hi - lo,
    {
        proof {
            let t = s@.subrange(lo as int, hi as int);
            assert(t.drop_first() =~= s@.subrange(lo as int + 1, hi as int));
        }
        lo = lo + 1;
    }
    while hi > lo && is_sp_exec(s.get_char(hi - 1))
        invariant
            0 <= lo <= hi <= n,
            n == s@.len(),
            spec_trim(s@) == spec_trim(s@.subrange(lo as int, hi as int)),
            lo < hi ==> !is_sp(s@[lo as int]),
        decreases hi,
    {
        proof {
            let t = s@.subrange(lo as int, hi as int);
            assert(t.drop_last() =~= s@.subrange(lo as int, hi as int - 1));
        }
        hi = hi - 1;
    }
    let mut r: Vec<char> = Vec::new();
    let mut i: usize = lo;
    while i < hi
        invariant
            lo <= i <= hi <= n,
            n == s@.len(),
            r@ == s@.subrange(lo as int, i as int),
        decreases hi - i,
    {
        r.push(s.get_char(i));
        proof {
            assert(r@ =~= s@.subrange(lo as int, i as int + 1));
        }
        i = i + 1;
    }
    proof {
        let t = s@.subrange(lo as int, hi as int);
        if lo < hi {
            assert(!is_sp(t[0]));
            assert(!is_sp(t.last()));
        }
        assert(spec_trim(t) == t);
        assert(r@ =~= t);
    }
    r
}

fn is_sp_exec(c: char) -> (r: bool)
    ensures
        r == is_sp(c),
{
    c == ' ' || c == '\t' || c == '\n' || c == '\r'
}

/// The characters of a name with separator characters removed; used to
/// normalize scale names such as "harmonic_minor".
pub open spec fn spec_strip_seps(s: Seq<char>) -> Seq<char> {
    s.filter(|c: char| !is_sep(c))
}

fn filter_seps(v: &Vec<char>) -> (r: Vec<char>)
    ensures
        r@ == spec_strip_seps(v@),
{
    let n = v.len();
    let mut r: Vec<char> = Vec::new();
    let mut i: usize = 0;
    proof {
        reveal(Seq::filter);
        assert(v@.subrange(0, 0) =~= Seq::<char>::empty());
    }
    while i < n
        invariant
            0 <= i <= n,
            n == v@.len(),
            r@ == v@.subrange(0, i as int).filter(|c: char| !is_sep(c)),
        decreases n - i,
    {
        let c = v[i];
        if !(c == ' ' || c == '-' || c == '_') {
            r.push(c);
        }
        proof {
            let pre = v@.subrange(0, i as int);
            assert(v@.subrange(0, i as int + 1) =~= pre.push(v@[i as int]));
            pre.lemma_filter_push(v@[i as int], |c: char| !is_sep(c));
        }
        i = i + 1;
    }
    proof {
        assert(v@.subrange(0, n as int) =~= v@);
    }
    r
}

/// Case-insensitive comparison of a normalized name against a keyword
/// written in lower case.
fn ci_match(v: &Vec<char>, w: &str) -> (r: bool)
    ensures
        r == ci_eq(v@, w@),
{
    let n = w.unicode_len();
    if v.len() != n {
        return false;
    }
    let mut i: usize = 0;
    while i < n
        invariant
            0 <= i <= n,
            n == w@.len(),
            v@.len() == n,
            forall|j: int| 0 <= j < i ==> ci(v@[j], #[trigger] w@[j]),
        decreases n - i,
    {
        let c = v[i];
        let l = w.get_char(i);
        let up = 'A' <= c && c <= 'Z' && (c as u32) + 32 == (l as u32);
        if !(c == l || up) {
            return false;
        }
        i = i + 1;
    }
    true
}

/// A sharp suffix: '#' or an 's' in either case.
pub open spec fn is_sharp(c: char) -> bool {
    c == '#' || ci(c, 's')
}

/// A flat suffix: a 'b' in either case.
pub open spec fn is_flat(c: char) -> bool {
    ci(c, 'b')
}

/// Parse of a one-character note name.
pub open spec fn spec_note1(c: char) -> Option<Note> {
    if ci(c, 'c') { Some(Note::C) }
    else if ci(c, 'd') { Some(Note::D) }
    else if ci(c, 'e') { Some(Note::E) }
    else if ci(c, 'f') { Some(Note::F) }
    else if ci(c, 'g') { Some(Note::G) }
    else if ci(c, 'a') { Some(Note::A) }
    else if ci(c, 'b') { Some(Note::B) }
    else { None }
}

/// Parse of a two-character note name (letter plus sharp or flat).
pub open spec fn spec_note2(c0: char, c1: char) -> Option<Note> {
    if ci(c0, 'c') && is_sharp(c1) { Some(Note::Cs) }
    else if ci(c0, 'd') && is_flat(c1) { Some(Note::Cs) }
    else if ci(c0, 'd') && is_sharp(c1) { Some(Note::Ds) }
    else if ci(c0, 'e') && is_flat(c1) { Some(Note::Ds) }
    else if ci(c0, 'f') && is_flat(c1) { Some(Note::E) }
    else if ci(c0, 'e') && is_sharp(c1) { Some(Note::F) }
    else if ci(c0, 'f') && is_sharp(c1) { Some(Note::Fs) }
    else if ci(c0, 'g') && is_flat(c1) { Some(Note::Fs) }
    else if ci(c0, 'g') && is_sharp(c1) { Some(Note::Gs) }
    else if ci(c0, 'a') && is_flat(c1) { Some(Note::Gs) }
    else if ci(c0, 'a') && is_sharp(c1) { Some(Note::As) }
    else if ci(c0, 'b') && is_flat(c1) { Some(Note::As) }
    else if ci(c0, 'c') && is_flat(c1) { Some(Note::B) }
    else { None }
}

/// What `Note::from_str` accepts: the trimmed name, case-insensitively,
/// as a letter with an optional sharp ('#'/'s') or flat ('b') suffix.
pub open spec fn spec_parse_note(s: Seq<char>) -> Option<Note> {
    let t = spec_trim(s);
    if t.len() == 1 { spec_note1(t[0]) }
    else if t.len() == 2 { spec_note2(t[0], t[1]) }
    else { None }
}

/// Case-insensitive match of one character against a lower-case letter.
fn ci_exec(c: char, l: char) -> (r: bool)
    ensures
        r == ci(c, l),
{
    c == l || ('A' <= c && c <= 'Z' && (c as u32) + 32 == (l as u32))
}

fn sharp_exec(c: char) -> (r: bool)
    ensures
        r == is_sharp(c),
{
    c == '#' || ci_exec(c, 's')
}

fn flat_exec(c: char) -> (r: bool)
    ensures
        r == is_flat(c),
{
    ci_exec(c, 'b')
}

impl Note {
    /// Parse note from string (e.g., "C", "C#", "Db", "F#")
    pub fn from_str(s: &str) -> (r: Option<Self>)
        ensures
            r == spec_parse_note(s@),
    {
        let t = trim_chars(s);
        if t.len() == 1 {
            let c = t[0];
            if ci_exec(c, 'c') { Some(Note::C) }
            else if ci_exec(c, 'd') { Some(Note::D) }
            else if ci_exec(c, 'e') { Some(Note::E) }
            else if ci_exec(c, 'f') { Some(Note::F) }
            else if ci_exec(c, 'g') { Some(Note::G) }
            else if ci_exec(c, 'a') { Some(Note::A) }
            else if ci_exec(c, 'b') { Some(Note::B) }
            else { None }
        } else if t.len() == 2 {
            let c0 = t[0];
            let c1 = t[1];
            if ci_exec(c0, 'c') && sharp_exec(c1) { Some(Note::Cs) }
            else if ci_exec(c0, 'd') && flat_exec(c1) { Some(Note::Cs) }
            else if ci_exec(c0, 'd') && sharp_exec(c1) { Some(Note::Ds) }
            else if ci_exec(c0, 'e') && flat_exec(c1) { Some(Note::Ds) }
            else if ci_exec(c0, 'f') && flat_exec(c1) { Some(Note::E) }
            else if ci_exec(c0, 'e') && sharp_exec(c1) { Some(Note::F) }
            else if ci_exec(c0, 'f') && sharp_exec(c1) { Some(Note::Fs) }
            else if ci_exec(c0, 'g') && flat_exec(c1) { Some(Note::Fs) }
            else if ci_exec(c0, 'g') && sharp_exec(c1) { Some(Note::Gs) }
            else if ci_exec(c0, 'a') && flat_exec(c1) { Some(Note::Gs) }
            else if ci_exec(c0, 'a') && sharp_exec(c1) { Some(Note::As) }
            else if ci_exec(c0, 'b') && flat_exec(c1) { Some(Note::As) }
            else if ci_exec(c0, 'c') && flat_exec(c1) { Some(Note::B) }
            else { None }
        } else {
            None
        }
    }
}

/// Scale types supported by the system
#[derive(Debug, Clone, Copy, PartialEq, Eq, Structural)]
pub enum ScaleType {
    // Major scale and modes
    Major,        // Ionian
    Dorian,       // Minor with raised 6th
    Phrygian,     // Minor with lowered 2nd
    Lydian,       // Major with raised 4th
    Mixolydian,   // Major with lowered 7th
    NaturalMinor, // Aeolian
    Locrian,      // Diminished

    // Other minor scales
    HarmonicMinor,
    MelodicMinor, // Ascending form

    // Pentatonic scales
    MajorPentatonic,
    MinorPentatonic,

    // Blues
    Blues,
    MajorBlues,

    // Other common scales
    WholeTone,
    Diminished,   // Half-whole
    DiminishedWH, // Whole-half
    Chromatic,

    // Custom scale from intervals
    Custom,
}

impl ScaleType {
    /// The semitone offsets from the root for this scale type.
    pub open spec fn spec_intervals(self) -> Seq<u8> {
        match self {
            ScaleType::Major => seq![0u8, 2, 4, 5, 7, 9, 11],
            ScaleType::Dorian => seq![0u8, 2, 3, 5, 7, 9, 10],
            ScaleType::Phrygian => seq![0u8, 1, 3, 5, 7, 8, 10],
            ScaleType::Lydian => seq![0u8, 2, 4, 6, 7, 9, 11],
            ScaleType::Mixolydian => seq![0u8, 2, 4, 5, 7, 9, 10],
            ScaleType::NaturalMinor => seq![0u8, 2, 3, 5, 7, 8, 10],
            ScaleType::Locrian => seq![0u8, 1, 3, 5, 6, 8, 10],
            ScaleType::HarmonicMinor => seq![0u8, 2, 3, 5, 7, 8, 11],
            ScaleType::MelodicMinor => seq![0u8, 2, 3, 5, 7, 9, 11],
            ScaleType::MajorPentatonic => seq![0u8, 2, 4, 7, 9],
            ScaleType::MinorPentatonic => seq![0u8, 3, 5, 7, 10],
            ScaleType::Blues => seq![0u8, 3, 5, 6, 7, 10],
            ScaleType::MajorBlues => seq![0u8, 2, 3, 4, 7, 9],
            ScaleType::WholeTone => seq![0u8, 2, 4, 6, 8, 10],
            ScaleType::Diminished => seq![0u8, 1, 3, 4, 6, 7, 9, 10],
            ScaleType::DiminishedWH => seq![0u8, 2, 3, 5, 6, 8, 9, 11],
            ScaleType::Chromatic => seq![0u8, 1, 2, 3, 4, 5, 6, 7, 8, 9, 10, 11],
            ScaleType::Custom => Seq::empty(),
        }
    }

    /// Get the intervals (semitones from root) for this scale type
    pub fn intervals(self) -> (r: Vec<u8>)
        ensures
            r@ == self.spec_intervals(),
    {
        let r: Vec<u8> = match self {
            ScaleType::Major => vec![0, 2, 4, 5, 7, 9, 11],
            ScaleType::Dorian => vec![0, 2, 3, 5, 7, 9, 10],
            ScaleType::Phrygian => vec![0, 1, 3, 5, 7, 8, 10],
            ScaleType::Lydian => vec![0, 2, 4, 6, 7, 9, 11],
            ScaleType::Mixolydian => vec![0, 2, 4, 5, 7, 9, 10],
            ScaleType::NaturalMinor => vec![0, 2, 3, 5, 7, 8, 10],
            ScaleType::Locrian => vec![0, 1, 3, 5, 6, 8, 10],
            ScaleType::HarmonicMinor => vec![0, 2, 3, 5, 7, 8, 11],
            ScaleType::MelodicMinor => vec![0, 2, 3, 5, 7, 9, 11],
            ScaleType::MajorPentatonic => vec![0, 2, 4, 7, 9],
            ScaleType::MinorPentatonic => vec![0, 3, 5, 7, 10],
            ScaleType::Blues => vec![0, 3, 5, 6, 7, 10],
            ScaleType::MajorBlues => vec![0, 2, 3, 4, 7, 9],
            ScaleType::WholeTone => vec![0, 2, 4, 6, 8, 10],
            ScaleType::Diminished => vec![0, 1, 3, 4, 6, 7, 9, 10],
            ScaleType::DiminishedWH => vec![0, 2, 3, 5, 6, 8, 9, 11],
            ScaleType::Chromatic => vec![0, 1, 2, 3, 4, 5, 6, 7, 8, 9, 10, 11],
            ScaleType::Custom => Vec::new(),
        };
        proof {
            assert(r@ =~= self.spec_intervals());
        }
        r
    }

    /// What `ScaleType::from_str` accepts: the name, trimmed, with spaces,
    /// hyphens and underscores removed, case-insensitively.
    pub open spec fn spec_parse(s: Seq<char>) -> Option<ScaleType> {
        let t = spec_strip_seps(spec_trim(s));
        if ci_eq(t, seq!['m', 'a', 'j', 'o', 'r']) { Some(ScaleType::Major) }
        else if ci_eq(t, seq!['i', 'o', 'n', 'i', 'a', 'n']) { Some(ScaleType::Major) }
        else if ci_eq(t, seq!['d', 'o', 'r', 'i', 'a', 'n']) { Some(ScaleType::Dorian) }
        else if ci_eq(t, seq!['p', 'h', 'r', 'y', 'g', 'i', 'a', 'n']) { Some(ScaleType::Phrygian) }
        else if ci_eq(t, seq!['l', 'y', 'd', 'i', 'a', 'n']) { Some(ScaleType::Lydian) }
        else if ci_eq(t, seq!['m', 'i', 'x', 'o', 'l', 'y', 'd', 'i', 'a', 'n']) { Some(ScaleType::Mixolydian) }
        else if ci_eq(t, seq!['m', 'i', 'n', 'o', 'r']) { Some(ScaleType::NaturalMinor) }
        else if ci_eq(t, seq!['n', 'a', 't', 'u', 'r', 'a', 'l', 'm', 'i', 'n', 'o', 'r']) { Some(ScaleType::NaturalMinor) }
        else if ci_eq(t, seq!['a', 'e', 'o', 'l', 'i', 'a', 'n']) { Some(ScaleType::NaturalMinor) }
        else if ci_eq(t, seq!['l', 'o', 'c', 'r', 'i', 'a', 'n']) { Some(ScaleType::Locrian) }
        else if ci_eq(t, seq!['h', 'a', 'r', 'm', 'o', 'n', 'i', 'c', 'm', 'i', 'n', 'o', 'r']) { Some(ScaleType::HarmonicMinor) }
        else if ci_eq(t, seq!['m', 'e', 'l', 'o', 'd', 'i', 'c', 'm', 'i', 'n', 'o', 'r']) { Some(ScaleType::MelodicMinor) }
        else if ci_eq(t, seq!['m', 'a', 'j', 'o', 'r', 'p', 'e', 'n', 't', 'a', 't', 'o', 'n', 'i', 'c']) { Some(ScaleType::MajorPentatonic) }
        else if ci_eq(t, seq!['p', 'e', 'n', 't', 'a', 't', 'o', 'n', 'i', 'c', 'm', 'a', 'j', 'o', 'r']) { Some(ScaleType::MajorPentatonic) }
        else if ci_eq(t, seq!['m', 'i', 'n', 'o', 'r', 'p', 'e', 'n', 't', 'a', 't', 'o', 'n', 'i', 'c']) { Some(ScaleType::MinorPentatonic) }
        else if ci_eq(t, seq!['p', 'e', 'n', 't', 'a', 't', 'o', 'n', 'i', 'c', 'm', 'i', 'n', 'o', 'r']) { Some(ScaleType::MinorPentatonic) }
        else if ci_eq(t, seq!['p', 'e', 'n', 't', 'a', 't', 'o', 'n', 'i', 'c']) { Some(ScaleType::MinorPentatonic) }
        else if ci_eq(t, seq!['b', 'l', 'u', 'e', 's']) { Some(ScaleType::Blues) }
        else if ci_eq(t, seq!['m', 'i', 'n', 'o', 'r', 'b', 'l', 'u', 'e', 's']) { Some(ScaleType::Blues) }
        else if ci_eq(t, seq!['m', 'a', 'j', 'o', 'r', 'b', 'l', 'u', 'e', 's']) { Some(ScaleType::MajorBlues) }
        else if ci_eq(t, seq!['w', 'h', 'o', 'l', 'e', 't', 'o', 'n', 'e']) { Some(ScaleType::WholeTone) }
        else if ci_eq(t, seq!['d', 'i', 'm', 'i', 'n', 'i', 's', 'h', 'e', 'd']) { Some(ScaleType::Diminished) }
        else if ci_eq(t, seq!['o', 'c', 't', 'a', 't', 'o', 'n', 'i', 'c']) { Some(ScaleType::Diminished) }
        else if ci_eq(t, seq!['h', 'a', 'l', 'f', 'w', 'h', 'o', 'l', 'e']) { Some(ScaleType::Diminished) }
        else if ci_eq(t, seq!['d', 'i', 'm', 'i', 'n', 'i', 's', 'h', 'e', 'd', 'w', 'h']) { Some(ScaleType::DiminishedWH) }
        else if ci_eq(t, seq!['w', 'h', 'o', 'l', 'e', 'h', 'a', 'l', 'f']) { Some(ScaleType::DiminishedWH) }
        else if ci_eq(t, seq!['c', 'h', 'r', 'o', 'm', 'a', 't', 'i', 'c']) { Some(ScaleType::Chromatic) }
        else { None }
    }

    /// Parse scale type from string
    pub fn from_str(s: &str) -> (r: Option<Self>)
        ensures
            r == ScaleType::spec_parse(s@),
    {
        let t0 = trim_chars(s);
        let t = filter_seps(&t0);
        proof {
            reveal_strlit("major");
            reveal_strlit("ionian");
            reveal_strlit("dorian");
            reveal_strlit("phrygian");
            reveal_strlit("lydian");
            reveal_strlit("mixolydian");
            reveal_strlit("minor");
            reveal_strlit("naturalminor");
            reveal_strlit("aeolian");
            reveal_strlit("locrian");
            reveal_strlit("harmonicminor");
            reveal_strlit("melodicminor");
            reveal_strlit("majorpentatonic");
            reveal_strlit("pentatonicmajor");
            reveal_strlit("minorpentatonic");
            reveal_strlit("pentatonicminor");
            reveal_strlit("pentatonic");
            reveal_strlit("blues");
            reveal_strlit("minorblues");
            reveal_strlit("majorblues");
            reveal_strlit("wholetone");
            reveal_strlit("diminished");
            reveal_strlit("octatonic");
            reveal_strlit("halfwhole");
            reveal_strlit("diminishedwh");
            reveal_strlit("wholehalf");
            reveal_strlit("chromatic");
            assert("major"@ =~= seq!['m', 'a', 'j', 'o', 'r']);
            assert("ionian"@ =~= seq!['i', 'o', 'n', 'i', 'a', 'n']);
            assert("dorian"@ =~= seq!['d', 'o', 'r', 'i', 'a', 'n']);
            assert("phrygian"@ =~= seq!['p', 'h', 'r', 'y', 'g', 'i', 'a', 'n']);
            assert("lydian"@ =~= seq!['l', 'y', 'd', 'i', 'a', 'n']);
            assert("mixolydian"@ =~= seq!['m', 'i', 'x', 'o', 'l', 'y', 'd', 'i', 'a', 'n']);
            assert("minor"@ =~= seq!['m', 'i', 'n', 'o', 'r']);
            assert("naturalminor"@ =~= seq!['n', 'a', 't', 'u', 'r', 'a', 'l', 'm', 'i', 'n', 'o', 'r']);
            assert("aeolian"@ =~= seq!['a', 'e', 'o', 'l', 'i', 'a', 'n']);
            assert("locrian"@ =~= seq!['l', 'o', 'c', 'r', 'i', 'a', 'n']);
            assert("harmonicminor"@ =~= seq!['h', 'a', 'r', 'm', 'o', 'n', 'i', 'c', 'm', 'i', 'n', 'o', 'r']);
            assert("melodicminor"@ =~= seq!['m', 'e', 'l', 'o', 'd', 'i', 'c', 'm', 'i', 'n', 'o', 'r']);
            assert("majorpentatonic"@ =~= seq!['m', 'a', 'j', 'o', 'r', 'p', 'e', 'n', 't', 'a', 't', 'o', 'n', 'i', 'c']);
            assert("pentatonicmajor"@ =~= seq!['p', 'e', 'n', 't', 'a', 't', 'o', 'n', 'i', 'c', 'm', 'a', 'j', 'o', 'r']);
            assert("minorpentatonic"@ =~= seq!['m', 'i', 'n', 'o', 'r', 'p', 'e', 'n', 't', 'a', 't', 'o', 'n', 'i', 'c']);
            assert("pentatonicminor"@ =~= seq!['p', 'e', 'n', 't', 'a', 't', 'o', 'n', 'i', 'c', 'm', 'i', 'n', 'o', 'r']);
            assert("pentatonic"@ =~= seq!['p', 'e', 'n', 't', 'a', 't', 'o', 'n', 'i', 'c']);
            assert("blues"@ =~= seq!['b', 'l', 'u', 'e', 's']);
            assert("minorblues"@ =~= seq!['m', 'i', 'n', 'o', 'r', 'b', 'l', 'u', 'e', 's']);
            assert("majorblues"@ =~= seq!['m', 'a', 'j', 'o', 'r', 'b', 'l', 'u', 'e', 's']);
            assert("wholetone"@ =~= seq!['w', 'h', 'o', 'l', 'e', 't', 'o', 'n', 'e']);
            assert("diminished"@ =~= seq!['d', 'i', 'm', 'i', 'n', 'i', 's', 'h', 'e', 'd']);
            assert("octatonic"@ =~= seq!['o', 'c', 't', 'a', 't', 'o', 'n', 'i', 'c']);
            assert("halfwhole"@ =~= seq!['h', 'a', 'l', 'f', 'w', 'h', 'o', 'l', 'e']);
            assert("diminishedwh"@ =~= seq!['d', 'i', 'm', 'i', 'n', 'i', 's', 'h', 'e', 'd', 'w', 'h']);
            assert("wholehalf"@ =~= seq!['w', 'h', 'o', 'l', 'e', 'h', 'a', 'l', 'f']);
            assert("chromatic"@ =~= seq!['c', 'h', 'r', 'o', 'm', 'a', 't', 'i', 'c']);
        }
        if ci_match(&t, "major") { Some(ScaleType::Major) }
        else if ci_match(&t, "ionian") { Some(ScaleType::Major) }
        else if ci_match(&t, "dorian") { Some(ScaleType::Dorian) }
        else if ci_match(&t, "phrygian") { Some(ScaleType::Phrygian) }
        else if ci_match(&t, "lydian") { Some(ScaleType::Lydian) }
        else if ci_match(&t, "mixolydian") { Some(ScaleType::Mixolydian) }
        else if ci_match(&t, "minor") { Some(ScaleType::NaturalMinor) }
        else if ci_match(&t, "naturalminor") { Some(ScaleType::NaturalMinor) }
        else if ci_match(&t, "aeolian") { Some(ScaleType::NaturalMinor) }
        else if ci_match(&t, "locrian") { Some(ScaleType::Locrian) }
        else if ci_match(&t, "harmonicminor") { Some(ScaleType::HarmonicMinor) }
        else if ci_match(&t, "melodicminor") { Some(ScaleType::MelodicMinor) }
        else if ci_match(&t, "majorpentatonic") { Some(ScaleType::MajorPentatonic) }
        else if ci_match(&t, "pentatonicmajor") { Some(ScaleType::MajorPentatonic) }
        else if ci_match(&t, "minorpentatonic") { Some(ScaleType::MinorPentatonic) }
        else if ci_match(&t, "pentatonicminor") { Some(ScaleType::MinorPentatonic) }
        else if ci_match(&t, "pentatonic") { Some(ScaleType::MinorPentatonic) }
        else if ci_match(&t, "blues") { Some(ScaleType::Blues) }
        else if ci_match(&t, "minorblues") { Some(ScaleType::Blues) }
        else if ci_match(&t, "majorblues") { Some(ScaleType::MajorBlues) }
        else if ci_match(&t, "wholetone") { Some(ScaleType::WholeTone) }
        else if ci_match(&t, "diminished") { Some(ScaleType::Diminished) }
        else if ci_match(&t, "octatonic") { Some(ScaleType::Diminished) }
        else if ci_match(&t, "halfwhole") { Some(ScaleType::Diminished) }
        else if ci_match(&t, "diminishedwh") { Some(ScaleType::DiminishedWH) }
        else if ci_match(&t, "wholehalf") { Some(ScaleType::DiminishedWH) }
        else if ci_match(&t, "chromatic") { Some(ScaleType::Chromatic) }
        else { None }
    }

    /// The display name of this scale type.
    pub open spec fn spec_name(self) -> Seq<char> {
        match self {
            ScaleType::Major => "Major"@,
            ScaleType::Dorian => "Dorian"@,
            ScaleType::Phrygian => "Phrygian"@,
            ScaleType::Lydian => "Lydian"@,
            ScaleType::Mixolydian => "Mixolydian"@,
            ScaleType::NaturalMinor => "Natural Minor"@,
            ScaleType::Locrian => "Locrian"@,
            ScaleType::HarmonicMinor => "Harmonic Minor"@,
            ScaleType::MelodicMinor => "Melodic Minor"@,
            ScaleType::MajorPentatonic => "Major Pentatonic"@,
            ScaleType::MinorPentatonic => "Minor Pentatonic"@,
            ScaleType::Blues => "Blues"@,
            ScaleType::MajorBlues => "Major Blues"@,
            ScaleType::WholeTone => "Whole Tone"@,
            ScaleType::Diminished => "Diminished"@,
            ScaleType::DiminishedWH => "Diminished (W-H)"@,
            ScaleType::Chromatic => "Chromatic"@,
            ScaleType::Custom => "Custom"@,
        }
    }

    /// Get a human-readable name for this scale type
    pub fn name(self) -> (r: &'static str)
        ensures
            r@ == self.spec_name(),
    {
        match self {
            ScaleType::Major => "Major",
            ScaleType::Dorian => "Dorian",
            ScaleType::Phrygian => "Phrygian",
            ScaleType::Lydian => "Lydian",
            ScaleType::Mixolydian => "Mixolydian",
            ScaleType::NaturalMinor => "Natural Minor",
            ScaleType::Locrian => "Locrian",
            ScaleType::HarmonicMinor => "Harmonic Minor",
            ScaleType::MelodicMinor => "Melodic Minor",
            ScaleType::MajorPentatonic => "Major Pentatonic",
            ScaleType::MinorPentatonic => "Minor Pentatonic",
            ScaleType::Blues => "Blues",
            ScaleType::MajorBlues => "Major Blues",
            ScaleType::WholeTone => "Whole Tone",
            ScaleType::Diminished => "Diminished",
            ScaleType::DiminishedWH => "Diminished (W-H)",
            ScaleType::Chromatic => "Chromatic",
            ScaleType::Custom => "Custom",
        }
    }

    /// The parallel major/minor counterpart, for the types that have one.
    pub open spec fn spec_parallel(self) -> Option<ScaleType> {
        match self {
            ScaleType::Major => Some(ScaleType::NaturalMinor),
            ScaleType::NaturalMinor => Some(ScaleType::Major),
            ScaleType::MajorPentatonic => Some(ScaleType::MinorPentatonic),
            ScaleType::MinorPentatonic => Some(ScaleType::MajorPentatonic),
            _ => None,
        }
    }

    /// Get the parallel minor/major scale type
    pub fn parallel(self) -> (r: Option<Self>)
        ensures
            r == self.spec_parallel(),
    {
        match self {
            ScaleType::Major => Some(ScaleType::NaturalMinor),
            ScaleType::NaturalMinor => Some(ScaleType::Major),
            ScaleType::MajorPentatonic => Some(ScaleType::MinorPentatonic),
            ScaleType::MinorPentatonic => Some(ScaleType::MajorPentatonic),
            _ => None,
        }
    }
}

/// Circular distance between two pitch classes (both in 0..12).
pub open spec fn circ_dist(a: int, b: int) -> int {
    let d = if a >= b { a - b } else { b - a };
    if d <= 12 - d { d } else { 12 - d }
}

/// A complete scale with root and type
#[derive(Debug, PartialEq)]
pub struct Scale {
    root: Note,
    scale_type: ScaleType,
    intervals: Vec<u8>,
    notes: Vec<Note>,
}

impl Scale {
    /// Root note of the scale.
    pub closed spec fn spec_root(self) -> Note {
        self.root
    }

    /// Scale type of the scale.
    pub closed spec fn spec_type(self) -> ScaleType {
        self.scale_type
    }

    /// The semitone offsets the scale was built from.
    pub closed spec fn ivals(self) -> Seq<u8> {
        self.intervals@
    }

    /// The derived notes, one per interval.
    pub closed spec fn spec_notes(self) -> Seq<Note> {
        self.notes@
    }

    /// Number of degrees in the scale.
    pub open spec fn spec_len(self) -> nat {
        self.ivals().len()
    }

    /// Pitch class of the 0-based degree `i`.
    pub open spec fn pc_at(self, i: int) -> int {
        (self.spec_root().pc() + self.ivals()[i]) % 12
    }

    /// Whether some degree of the scale has pitch class `pc`.
    pub open spec fn has_pc(self, pc: int) -> bool {
        exists|i: int| 0 <= i < self.spec_len() && self.pc_at(i) == pc
    }

    /// The derived notes always mirror the intervals.
    #[verifier::type_invariant]
    spec fn inv(self) -> bool {
        &&& self.notes@.len() == self.intervals@.len()
        &&& forall|i: int| 0 <= i < self.notes@.len()
            ==> self.notes@[i] == Note::spec_from_pc(#[trigger] self.pc_at(i))
    }

    /// Derive the note list from a root and intervals.
    fn build_notes(root: Note, intervals: &Vec<u8>) -> (r: Vec<Note>)
        ensures
            r@.len() == intervals@.len(),
            forall|i: int| 0 <= i < r@.len()
                ==> r@[i] == Note::spec_from_pc((root.pc() + intervals@[i]) % 12),
    {
        let mut notes: Vec<Note> = Vec::new();
        let mut i: usize = 0;
        while i < intervals.len()
            invariant
                0 <= i <= intervals@.len(),
                notes@.len() == i,
                forall|j: int| 0 <= j < i as int
                    ==> notes@[j] == Note::spec_from_pc((root.pc() + intervals@[j]) % 12),
            decreases intervals@.len() - i,
        {
            let iv = intervals[i];
            let pc = (root.pitch_class() as u32 + iv as u32) % 12;
            proof {
                vstd::arithmetic::div_mod::lemma_mod_twice(root.pc() + iv as int, 12);
            }
            notes.push(Note::from_pitch_class(pc as u8));
            i = i + 1;
        }
        notes
    }

    /// Create a new scale from root and type
    pub fn new(root: Note, scale_type: ScaleType) -> (r: Self)
        ensures
            r.spec_root() == root,
            r.spec_type() == scale_type,
            r.ivals() == scale_type.spec_intervals(),
    {
        let intervals = scale_type.intervals();
        let notes = Scale::build_notes(root, &intervals);
        Self { root, scale_type, intervals, notes }
    }

    /// Create a custom scale from root and intervals
    pub fn custom(root: Note, intervals: Vec<u8>) -> (r: Self)
        ensures
            r.spec_root() == root,
            r.spec_type() == ScaleType::Custom,
            r.ivals() == intervals@,
    {
        let notes = Scale::build_notes(root, &intervals);
        Self { root, scale_type: ScaleType::Custom, intervals, notes }
    }

    /// Parse a scale from strings (e.g., "C", "major")
    pub fn parse(root_str: &str, scale_str: &str) -> (r: Option<Self>)
        ensures
            match (spec_parse_note(root_str@), ScaleType::spec_parse(scale_str@)) {
                (Some(root), Some(st)) => {
                    &&& r is Some
                    &&& r->0.spec_root() == root
                    &&& r->0.spec_type() == st
                    &&& r->0.ivals() == st.spec_intervals()
                },
                _ => r is None,
            },
    {
        let root = Note::from_str(root_str);
        let st = ScaleType::from_str(scale_str);
        match (root, st) {
            (Some(root), Some(st)) => Some(Scale::new(root, st)),
            _ => None,
        }
    }

    /// Get the root note
    pub fn root(&self) -> (r: Note)
        ensures
            r == self.spec_root(),
    {
        self.root
    }

    /// Get the scale type
    pub fn scale_type(&self) -> (r: ScaleType)
        ensures
            r == self.spec_type(),
    {
        self.scale_type
    }

    /// Get the intervals (semitones from root)
    pub fn intervals(&self) -> (r: &[u8])
        ensures
            r@ == self.ivals(),
    {
        self.intervals.as_slice()
    }

    /// Get the notes in this scale
    pub fn notes(&self) -> (r: &[Note])
        ensures
            r@ == self.spec_notes(),
            r@.len() == self.spec_len(),
            forall|i: int| 0 <= i < r@.len()
                ==> r@[i] == Note::spec_from_pc(#[trigger] self.pc_at(i)),
    {
        proof {
            use_type_invariant(self);
        }
        self.notes.as_slice()
    }

    /// Get the number of notes in this scale
    pub fn len(&self) -> (r: usize)
        ensures
            r == self.spec_len(),
    {
        self.intervals.len()
    }

    /// Check if this scale is empty (shouldn't happen normally)
    pub fn is_empty(&self) -> (r: bool)
        ensures
            r == (self.spec_len() == 0),
    {
        self.intervals.len() == 0
    }

    /// Check if a note is in this scale
    pub fn contains(&self, note: Note) -> (r: bool)
        ensures
            r == self.has_pc(note.pc()),
    {
        proof {
            use_type_invariant(self);
        }
        let n = self.notes.len();
        let mut i: usize = 0;
    
        while i < n
            invariant
                0 <= i <= n,
                n == self.spec_len(),
                self.inv(),
                forall|j: int| 0 <= j < i as int ==> #[trigger] self.pc_at(j) != note.pc(),
            decreases n - i,
        {
            proof {
                lemma_from_pc_pc(self.pc_at(i as int));
            }
            if self.notes[i] == note {
                return true;
            }
            i = i + 1;
        }
        false
    }

    /// Check if a MIDI note is in this scale
    pub fn contains_midi(&self, midi_note: MidiNote) -> (r: bool)
        ensures
            r == self.has_pc(midi_note as int % 12),
    {
        let note = Note::from_pitch_class(midi_note % 12);
        proof {
            vstd::arithmetic::div_mod::lemma_mod_twice(midi_note as int, 12);
            lemma_from_pc_pc(midi_note as int % 12);
        }
        self.contains(note)
    }

    /// Get the scale degree (1-based) for a note, if it's in the scale
    pub fn degree_of(&self, note: Note) -> (r: Option<usize>)
        ensures
            match r {
                Some(d) => {
                    &&& 1 <= d <= self.spec_len()
                    &&& self.spec_notes()[d - 1] == note
                    &&& forall|j: int| 0 <= j < d - 1 ==> self.spec_notes()[j] != note
                },
                None => forall|j: int|
                    0 <= j < self.spec_len() ==> self.spec_notes()[j] != note,
            },
    {
        proof {
            use_type_invariant(self);
        }
        let n = self.notes.len();
        let mut i: usize = 0;
        while i < n
            invariant
                0 <= i <= n,
                n == self.spec_notes().len(),
                n == self.spec_len(),
                forall|j: int| 0 <= j < i as int ==> self.spec_notes()[j] != note,
            decreases n - i,
        {
            if self.notes[i] == note {
                return Some(i + 1);
            }
            i = i + 1;
        }
        None
    }

    /// Get the note at a given scale degree (1-based)
    pub fn note_at_degree(&self, degree: usize) -> (r: Option<Note>)
        ensures
            match r {
                Some(n) => {
                    &&& 1 <= degree <= self.spec_len()
                    &&& n == Note::spec_from_pc(self.pc_at(degree - 1))
                },
                None => degree == 0 || degree > self.spec_len(),
            },
    {
        proof {
            use_type_invariant(self);
        }
        if degree == 0 || degree > self.notes.len() {
            return None;
        }
        Some(self.notes[degree - 1])
    }

    /// MIDI note value of 1-based `degree` in `octave`: (octave + 1) * 12
    /// plus the degree's pitch class, when that lands in 0..=127.
    pub open spec fn spec_midi_at(self, degree: int, octave: int) -> int {
        (octave + 1) * 12 + self.pc_at(degree - 1)
    }

    /// Get a MIDI note at a given scale degree and octave
    /// Degree is 1-based, octave uses MIDI convention (middle C = C4 = 60)
    pub fn midi_note_at(&self, degree: usize, octave: i8) -> (r: Option<MidiNote>)
        ensures
            match r {
                Some(m) => {
                    &&& 1 <= degree <= self.spec_len()
                    &&& m == self.spec_midi_at(degree as int, octave as int)
                    &&& 0 <= self.spec_midi_at(degree as int, octave as int) <= 127
                    &&& m as int % 12 == self.pc_at(degree as int - 1)
                    &&& self.has_pc(m as int % 12)
                },
                None => degree == 0 || degree > self.spec_len()
                    || !(0 <= self.spec_midi_at(degree as int, octave as int) <= 127),
            },
    {
        let note = match self.note_at_degree(degree) {
            Some(n) => n,
            None => {
                return None;
            },
        };
        proof {
            lemma_from_pc_pc(self.pc_at(degree as int - 1));
        }
        let midi: i32 = (octave as i32 + 1) * 12 + note.pitch_class() as i32;
        if midi < 0 || midi > 127 {
            return None;
        }
        proof {
            vstd::arithmetic::div_mod::lemma_mod_multiples_vanish(
                octave as int + 1, self.pc_at(degree as int - 1), 12);
            vstd::arithmetic::div_mod::lemma_small_mod(
                self.pc_at(degree as int - 1) as nat, 12);
        }
        Some(midi as u8)
    }
}

impl Clone for Scale {
    /// Clone the scale; the copy carries the same root, type, intervals
    /// and derived notes.
    fn clone(&self) -> (r: Self)
        ensures
            r.spec_root() == self.spec_root(),
            r.spec_type() == self.spec_type(),
            r.ivals() == self.ivals(),
            r.spec_notes() == self.spec_notes(),
    {
        proof {
            use_type_invariant(self);
        }
        let intervals: Vec<u8> = self.intervals.clone();
        assert(intervals@ =~= self.intervals@);
        let notes = Scale::build_notes(self.root, &intervals);
        let r = Scale { root: self.root, scale_type: self.scale_type, intervals, notes };
        proof {
            assert forall|i: int| 0 <= i < r.spec_notes().len()
                implies r.spec_notes()[i] == self.spec_notes()[i] by {
                assert(self.notes@[i] == Note::spec_from_pc(self.pc_at(i)));
                assert(r.pc_at(i) == self.pc_at(i));
            }
            assert(r.spec_notes() =~= self.spec_notes());
        }
        r
    }
}

/// A quotient with a bounded dividend and positive divisor is itself
/// bounded; used to keep octave arithmetic inside fixed-width integers.
proof fn lemma_quotient_magnitude(a: int, b: int, q: int, r: int)
    by (nonlinear_arith)
    requires
        b >= 1,
        0 <= r < b,
        a == b * q + r,
        -0x1_0000_0000_0000_0000_0000_0000 < a,
        a < 0x1_0000_0000_0000_0000_0000_0000,
    ensures
        -0x2_0000_0000_0000_0000_0000_0000 < q < 0x2_0000_0000_0000_0000_0000_0000,
{
}

/// `spec_from_pc` yields a note with the requested pitch class, and is the
/// inverse of `pc` on 0..12.
pub proof fn lemma_from_pc_pc(pc: int)
    requires
        0 <= pc < 12,
    ensures
        Note::spec_from_pc(pc).pc() == pc,
        forall|n: Note| #[trigger] n.pc() == pc ==> Note::spec_from_pc(pc) == n,
{
}

impl Scale {
    /// Index of the nearest degree, scanning left to right from position
    /// `i` with current best index `best` at distance `best_d`; ties keep
    /// the earlier degree.
    pub open spec fn spec_nearest_scan(self, pc: int, i: int, best: int, best_d: int) -> int
        decreases self.spec_len() - i,
    {
        if i < 0 || i >= self.spec_len() {
            best
        } else {
            let d = circ_dist(pc, self.pc_at(i));
            if d < best_d {
                self.spec_nearest_scan(pc, i + 1, i, d)
            } else {
                self.spec_nearest_scan(pc, i + 1, best, best_d)
            }
        }
    }

    /// Index of the first degree whose pitch class is circularly nearest
    /// to `pc`.
    pub open spec fn spec_nearest(self, pc: int) -> int {
        self.spec_nearest_scan(pc, 0, 0, 12)
    }

    proof fn lemma_nearest_scan_bound(self, pc: int, i: int, best: int, best_d: int)
        requires
            0 <= i,
            0 <= best < self.spec_len(),
        ensures
            0 <= self.spec_nearest_scan(pc, i, best, best_d) < self.spec_len(),
        decreases self.spec_len() - i,
    {
        if 0 <= i && i < self.spec_len() {
            let d = circ_dist(pc, self.pc_at(i));
            if d < best_d {
                self.lemma_nearest_scan_bound(pc, i + 1, i, d);
            } else {
                self.lemma_nearest_scan_bound(pc, i + 1, best, best_d);
            }
        }
    }

    /// Find the nearest scale degree for a note not in the scale
    fn nearest_degree(&self, note: Note) -> (r: usize)
        requires
            self.spec_len() > 0,
        ensures
            r == self.spec_nearest(note.pc()),
            r < self.spec_len(),
    {
        proof {
            use_type_invariant(self);
        }
        let pc = note.pitch_class();
        let mut min_dist: u8 = 12;
        let mut nearest: usize = 0;
        let n = self.notes.len();
        let mut i: usize = 0;
        while i < n
            invariant
                0 <= i <= n,
                n == self.spec_len(),
                self.inv(),
                0 <= nearest < n,
                pc == note.pc(),
                self.spec_nearest(note.pc()) == self.spec_nearest_scan(
                    note.pc(), i as int, nearest as int, min_dist as int),
            decreases n - i,
        {
            proof {
                lemma_from_pc_pc(self.pc_at(i as int));
            }
            let spc = self.notes[i].pitch_class();
            let diff = if pc >= spc { pc - spc } else { spc - pc };
            let dist = if diff <= 12 - diff { diff } else { 12 - diff };
            assert(dist == circ_dist(note.pc(), self.pc_at(i as int)));
            if dist < min_dist {
                min_dist = dist;
                nearest = i;
            }
            i = i + 1;
        }
        nearest
    }

    /// What `quantize` returns: the note itself when the scale is empty or
    /// already has its pitch class, else the nearest degree's pitch class
    /// in the note's octave.
    pub open spec fn spec_quantize(self, midi: int) -> int {
        if self.spec_len() == 0 {
            midi
        } else if self.has_pc(midi % 12) {
            midi
        } else {
            (midi / 12) * 12 + self.pc_at(self.spec_nearest(midi % 12))
        }
    }

    /// Quantize a MIDI note to the nearest note in the scale
    pub fn quantize(&self, midi_note: MidiNote) -> (r: MidiNote)
        requires
            midi_note <= 127,
        ensures
            r == self.spec_quantize(midi_note as int),
            self.spec_len() > 0 ==> self.has_pc(r as int % 12),
    {
        proof {
            use_type_invariant(self);
        }
        if self.intervals.len() == 0 {
            return midi_note;
        }
        let pitch_class = midi_note % 12;
        let octave = midi_note / 12;
        let note = Note::from_pitch_class(pitch_class);
        proof {
            vstd::arithmetic::div_mod::lemma_mod_twice(midi_note as int, 12);
            lemma_from_pc_pc(midi_note as int % 12);
        }
        if self.contains(note) {
            return midi_note;
        }
        let nearest_idx = self.nearest_degree(note);
        proof {
            lemma_from_pc_pc(self.pc_at(nearest_idx as int));
        }
        let nearest_note = self.notes[nearest_idx];
        let r = octave * 12 + nearest_note.pitch_class();
        proof {
            vstd::arithmetic::div_mod::lemma_mod_multiples_vanish(
                octave as int, self.pc_at(nearest_idx as int), 12);
            vstd::arithmetic::div_mod::lemma_small_mod(
                self.pc_at(nearest_idx as int) as nat, 12);
        }
        r
    }

    /// The degree the transposition starts from: the first degree with the
    /// note's pitch class, or the nearest degree when the note is off-scale.
    pub open spec fn spec_cur_degree_scan(self, pc: int, i: int) -> int
        decreases self.spec_len() - i,
    {
        if i < 0 || i >= self.spec_len() {
            self.spec_nearest(pc)
        } else if self.pc_at(i) == pc {
            i
        } else {
            self.spec_cur_degree_scan(pc, i + 1)
        }
    }

    /// See `spec_cur_degree_scan`.
    pub open spec fn spec_cur_degree(self, pc: int) -> int {
        self.spec_cur_degree_scan(pc, 0)
    }

    proof fn lemma_cur_degree_bound(self, pc: int, i: int)
        requires
            self.spec_len() > 0,
            0 <= i,
        ensures
            0 <= self.spec_cur_degree_scan(pc, i) < self.spec_len(),
        decreases self.spec_len() - i,
    {
        if 0 <= i && i < self.spec_len() {
            if self.pc_at(i) != pc {
                self.lemma_cur_degree_bound(pc, i + 1);
            }
        } else {
            self.lemma_nearest_scan_bound(pc, 0, 0, 12);
        }
    }

    /// What `transpose_in_scale` returns: move `degrees` scale steps from
    /// the current degree, wrapping by octaves, clamped into 0..=127.
    pub open spec fn spec_transpose_in_scale(self, midi: int, degrees: int) -> int {
        if self.spec_len() == 0 {
            midi
        } else {
            let len = self.spec_len() as int;
            let octave = midi / 12 - 1;
            let cur = self.spec_cur_degree(midi % 12);
            let new_pos = cur + degrees;
            let new_degree = new_pos % len;
            let octave_change = new_pos / len;
            let res = (octave + octave_change + 1) * 12 + self.pc_at(new_degree);
            if res < 0 { 0 } else if res > 127 { 127 } else { res }
        }
    }

    /// Transpose a MIDI note by scale degrees (positive = up, negative = down)
    /// Returns the transposed note, wrapping to stay within scale
    #[verifier::loop_isolation(false)]
    pub fn transpose_in_scale(&self, midi_note: MidiNote, degrees: i32) -> (r: MidiNote)
        ensures
            r == self.spec_transpose_in_scale(midi_note as int, degrees as int),
    {
        proof {
            use_type_invariant(self);
        }
        if self.intervals.len() == 0 {
            return midi_note;
        }
        let pitch_class = midi_note % 12;
        let note = Note::from_pitch_class(pitch_class);
        let octave: i32 = (midi_note / 12) as i32 - 1;
        proof {
            vstd::arithmetic::div_mod::lemma_mod_twice(midi_note as int, 12);
            lemma_from_pc_pc(midi_note as int % 12);
        }

        // Find current position in scale (or nearest)
        let n = self.notes.len();
        let mut cur: usize = 0;
        let mut found = false;
        let mut i: usize = 0;
        while i < n && !found
            invariant
                0 <= i <= n,
                cur < n,
                !found ==> {
                    &&& cur == 0
                    &&& self.spec_cur_degree(midi_note as int % 12)
                        == self.spec_cur_degree_scan(midi_note as int % 12, i as int)
                },
                found ==> cur == self.spec_cur_degree(midi_note as int % 12),
            decreases n - i, (if found { 0int } else { 1int }),
        {
            proof {
                lemma_from_pc_pc(self.pc_at(i as int));
            }
            if self.notes[i] == note {
                cur = i;
                found = true;
            } else {
                assert(self.pc_at(i as int) != midi_note as int % 12);
                i = i + 1;
            }
        }
        if !found {
            cur = self.nearest_degree(note);
        }
        proof {
            self.lemma_cur_degree_bound(midi_note as int % 12, 0);
        }
        assert(cur == self.spec_cur_degree(midi_note as int % 12));
        assert(cur < n);

        // Calculate new position
        let len_w: i128 = n as i128;
        let new_pos: i128 = cur as i128 + degrees as i128;
        let new_degree: i128 = match new_pos.checked_rem_euclid(len_w) {
            Some(d) => d,
            None => 0,
        };
        assert(new_degree == new_pos as int % (n as int));
        assert(0 <= new_degree < n as int);
        proof {
            vstd::arithmetic::div_mod::lemma_fundamental_div_mod(new_pos as int, n as int);
            lemma_quotient_magnitude(new_pos as int, n as int,
                new_pos as int / (n as int), new_pos as int % (n as int));
        }
        let octave_change: i128 = match new_pos.checked_div_euclid(len_w) {
            Some(q) => q,
            None => 0,
        };
        assert(octave_change == new_pos as int / (n as int));
        assert(-0x2_0000_0000_0000_0000_0000_0000 < octave_change < 0x2_0000_0000_0000_0000_0000_0000);

        // Get the new note
        proof {
            lemma_from_pc_pc(self.pc_at(new_degree as int));
        }
        let new_note = self.notes[new_degree as usize];
        let result: i128 = (octave as i128 + octave_change + 1) * 12
            + new_note.pitch_class() as i128;
        if result < 0 {
            0
        } else if result > 127 {
            127
        } else {
            result as u8
        }
    }

    /// Get the parallel scale (major <-> minor)
    pub fn parallel(&self) -> (r: Option<Scale>)
        ensures
            match self.spec_type().spec_parallel() {
                Some(st) => {
                    &&& r is Some
                    &&& r->0.spec_root() == self.spec_root()
                    &&& r->0.spec_type() == st
                    &&& r->0.ivals() == st.spec_intervals()
                },
                None => r is None,
            },
    {
        match self.scale_type.parallel() {
            Some(st) => Some(Scale::new(self.root, st)),
            None => None,
        }
    }

    /// Get the relative scale (e.g., C major -> A minor)
    pub fn relative(&self) -> (r: Option<Scale>)
        ensures
            match self.spec_type() {
                ScaleType::Major => {
                    &&& r is Some
                    &&& r->0.spec_root() == Note::spec_from_pc((self.spec_root().pc() - 3) % 12)
                    &&& r->0.spec_type() == ScaleType::NaturalMinor
                },
                ScaleType::NaturalMinor => {
                    &&& r is Some
                    &&& r->0.spec_root() == Note::spec_from_pc((self.spec_root().pc() + 3) % 12)
                    &&& r->0.spec_type() == ScaleType::Major
                },
                _ => r is None,
            },
    {
        match self.scale_type {
            ScaleType::Major => {
                let relative_root = self.root.transpose(-3); // Down a minor 3rd
                Some(Scale::new(relative_root, ScaleType::NaturalMinor))
            },
            ScaleType::NaturalMinor => {
                let relative_root = self.root.transpose(3); // Up a minor 3rd
                Some(Scale::new(relative_root, ScaleType::Major))
            },
            _ => None,
        }
    }
}

/// A musical key with root and mode
#[derive(Debug, PartialEq)]
pub struct Key {
    root: Note,
    scale: Scale,
}

impl Key {
    /// Root note of the key.
    pub closed spec fn spec_root(self) -> Note {
        self.root
    }

    /// Scale of the key.
    pub closed spec fn spec_scale(self) -> Scale {
        self.scale
    }

    /// Create a new key
    pub fn new(root: Note, scale_type: ScaleType) -> (r: Self)
        ensures
            r.spec_root() == root,
            r.spec_scale().spec_root() == root,
            r.spec_scale().spec_type() == scale_type,
            r.spec_scale().ivals() == scale_type.spec_intervals(),
    {
        Self { root, scale: Scale::new(root, scale_type) }
    }

    /// Parse a key from strings
    pub fn parse(root_str: &str, scale_str: &str) -> (r: Option<Self>)
        ensures
            match (spec_parse_note(root_str@), ScaleType::spec_parse(scale_str@)) {
                (Some(root), Some(st)) => {
                    &&& r is Some
                    &&& r->0.spec_root() == root
                    &&& r->0.spec_scale().spec_root() == root
                    &&& r->0.spec_scale().spec_type() == st
                    &&& r->0.spec_scale().ivals() == st.spec_intervals()
                },
                _ => r is None,
            },
    {
        let root = Note::from_str(root_str);
        let st = ScaleType::from_str(scale_str);
        match (root, st) {
            (Some(root), Some(st)) => Some(Key::new(root, st)),
            _ => None,
        }
    }

    /// Get the root note
    pub fn root(&self) -> (r: Note)
        ensures
            r == self.spec_root(),
    {
        self.root
    }

    /// Get the scale
    pub fn scale(&self) -> (r: &Scale)
        ensures
            *r == self.spec_scale(),
    {
        &self.scale
    }

    /// Transpose the key by semitones
    pub fn transpose(&self, semitones: Semitones) -> (r: Self)
        ensures
            r.spec_root() == Note::spec_from_pc((self.spec_root().pc() + semitones) % 12),
            r.spec_scale().spec_root() == r.spec_root(),
            r.spec_scale().spec_type() == self.spec_scale().spec_type(),
            r.spec_scale().ivals() == self.spec_scale().spec_type().spec_intervals(),
    {
        let new_root = self.root.transpose(semitones);
        Key::new(new_root, self.scale.scale_type())
    }

    /// Get the relative key
    pub fn relative(&self) -> (r: Option<Key>)
        ensures
            match self.spec_scale().spec_type() {
                ScaleType::Major => {
                    &&& r is Some
                    &&& r->0.spec_root() == Note::spec_from_pc(
                        (self.spec_scale().spec_root().pc() - 3) % 12)
                    &&& r->0.spec_scale().spec_type() == ScaleType::NaturalMinor
                    &&& r->0.spec_scale().spec_root() == r->0.spec_root()
                },
                ScaleType::NaturalMinor => {
                    &&& r is Some
                    &&& r->0.spec_root() == Note::spec_from_pc(
                        (self.spec_scale().spec_root().pc() + 3) % 12)
                    &&& r->0.spec_scale().spec_type() == ScaleType::Major
                    &&& r->0.spec_scale().spec_root() == r->0.spec_root()
                },
                _ => r is None,
            },
    {
        match self.scale.relative() {
            Some(s) => {
                let root = s.root();
                Some(Key { root, scale: s })
            },
            None => None,
        }
    }

    /// Get the parallel key
    pub fn parallel(&self) -> (r: Option<Key>)
        ensures
            match self.spec_scale().spec_type().spec_parallel() {
                Some(st) => {
                    &&& r is Some
                    &&& r->0.spec_root() == self.spec_scale().spec_root()
                    &&& r->0.spec_scale().spec_type() == st
                    &&& r->0.spec_scale().spec_root() == r->0.spec_root()
                },
                None => r is None,
            },
    {
        match self.scale.parallel() {
            Some(s) => {
                let root = s.root();
                Some(Key { root, scale: s })
            },
            None => None,
        }
    }

    /// Get the dominant key (V)
    pub fn dominant(&self) -> (r: Key)
        ensures
            r.spec_root() == Note::spec_from_pc((self.spec_root().pc() + 7) % 12),
            r.spec_scale().spec_type() == self.spec_scale().spec_type(),
            r.spec_scale().spec_root() == r.spec_root(),
    {
        Key::new(self.root.transpose(7), self.scale.scale_type())
    }

    /// Get the subdominant key (IV)
    pub fn subdominant(&self) -> (r: Key)
        ensures
            r.spec_root() == Note::spec_from_pc((self.spec_root().pc() + 5) % 12),
            r.spec_scale().spec_type() == self.spec_scale().spec_type(),
            r.spec_scale().spec_root() == r.spec_root(),
    {
        Key::new(self.root.transpose(5), self.scale.scale_type())
    }
}

impl Clone for Key {
    /// Clone the key; the copy carries the same root and scale.
    fn clone(&self) -> (r: Self)
        ensures
            r.spec_root() == self.spec_root(),
            r.spec_scale().spec_root() == self.spec_scale().spec_root(),
            r.spec_scale().spec_type() == self.spec_scale().spec_type(),
            r.spec_scale().ivals() == self.spec_scale().ivals(),
    {
        Key { root: self.root, scale: self.scale.clone() }
    }
}

/// Custom scale definitions that can be loaded from config
#[derive(Debug)]
pub struct CustomScaleDefinition {
    /// Name of the scale
    pub name: String,
    /// Intervals from root (semitones)
    pub intervals: Vec<u8>,
}

impl CustomScaleDefinition {
    /// Create a scale from this definition
    pub fn to_scale(&self, root: Note) -> (r: Scale)
        ensures
            r.spec_root() == root,
            r.spec_type() == ScaleType::Custom,
            r.ivals() == self.intervals@,
    {
        Scale::custom(root, self.intervals.clone())
    }
}

impl Clone for CustomScaleDefinition {
    /// Clone the definition; the copy carries the same name and intervals.
    fn clone(&self) -> (r: Self)
        ensures
            r.name@ == self.name@,
            r.intervals@ == self.intervals@,
    {
        let name = crate::text::clone_string(&self.name);
        let intervals = self.intervals.clone();
        proof {
            assert(intervals@ =~= self.intervals@);
        }
        CustomScaleDefinition { name, intervals }
    }
}

/// The set of name views held by a list of strings.
pub open spec fn name_views(s: Seq<String>) -> Set<Seq<char>> {
    Set::new(|x: Seq<char>| exists|i: int| 0 <= i < s.len() && s[i]@ == x)
}

/// The names of the built-in scale types as listed by the registry.
pub open spec fn builtin_scale_names() -> Set<Seq<char>> {
    set![
        "major"@, "dorian"@, "phrygian"@, "lydian"@, "mixolydian"@, "minor"@,
        "locrian"@, "harmonic_minor"@, "melodic_minor"@, "major_pentatonic"@,
        "minor_pentatonic"@, "blues"@, "major_blues"@, "whole_tone"@,
        "diminished"@, "chromatic"@,
    ]
}

/// A list of strings in strictly increasing lexicographic order (hence
/// without duplicates).
pub open spec fn strictly_sorted_names(s: Seq<String>) -> bool {
    forall|i: int, j: int| 0 <= i < j < s.len()
        ==> crate::text::lex_lt(#[trigger] s[i]@, #[trigger] s[j]@)
}

/// Insert a name into a strictly sorted list, keeping it sorted and
/// dropping the name if it is already present.
fn insert_name(v: &mut Vec<String>, name: String)
    requires
        strictly_sorted_names(old(v)@),
    ensures
        strictly_sorted_names(final(v)@),
        name_views(final(v)@) == name_views(old(v)@).insert(name@),
{
    let mut pos: usize = 0;
    while pos < v.len() && !crate::text::str_le(&name, &v[pos as usize])
        invariant
            0 <= pos <= v@.len(),
            v@ == old(v)@,
            strictly_sorted_names(v@),
            forall|j: int| 0 <= j < pos ==> crate::text::lex_lt(#[trigger] v@[j]@, name@),
        decreases v@.len() - pos,
    {
        proof {
            crate::text::lemma_lex_le_total(name@, v@[pos as int]@);
            crate::text::lemma_lex_le_refl(name@);
        }
        pos = pos + 1;
    }
    if pos < v.len() && crate::text::str_eq(&name, &v[pos]) {
        proof {
            assert(name_views(v@).contains(name@));
            assert(name_views(v@) =~= name_views(old(v)@).insert(name@));
        }
        return;
    }
    proof {
        if pos < v@.len() {
            crate::text::lemma_lex_le_total(name@, v@[pos as int]@);
        }
    }
    let ghost before = v@;
    v.insert(pos, name);
    proof {
        assert forall|i: int, j: int| 0 <= i < j < v@.len()
            implies crate::text::lex_lt(v@[i]@, v@[j]@) by {
            if j < pos {
                assert(v@[i]@ == before[i]@);
                assert(v@[j]@ == before[j]@);
            } else if i > pos {
                assert(v@[i]@ == before[i - 1]@);
                assert(v@[j]@ == before[j - 1]@);
            } else if i < pos && j == pos {
                assert(v@[i]@ == before[i]@);
            } else if i == pos {
                assert(v@[j]@ == before[j - 1]@);
                crate::text::lemma_lex_le_total(name@, before[pos as int]@);
                assert(crate::text::lex_lt(name@, before[pos as int]@));
                if j - 1 > pos {
                    assert(crate::text::lex_lt(before[pos as int]@, before[j - 1]@));
                    crate::text::lemma_lex_le_trans(name@, before[pos as int]@, before[j - 1]@);
                    assert(name@ != before[j - 1]@) by {
                        if name@ == before[j - 1]@ {
                            crate::text::lemma_lex_le_total(name@, before[pos as int]@);
                        }
                    }
                }
            } else {
                // i < pos < j
                assert(v@[i]@ == before[i]@);
                assert(v@[j]@ == before[j - 1]@);
            }
        }
        assert forall|x: Seq<char>| name_views(v@).contains(x)
            implies name_views(before).insert(name@).contains(x) by {
            let i = choose|i: int| 0 <= i < v@.len() && v@[i]@ == x;
            if i < pos {
                assert(before[i]@ == x);
            } else if i > pos {
                assert(before[i - 1]@ == x);
            }
        }
        assert forall|x: Seq<char>| name_views(before).insert(name@).contains(x)
            implies name_views(v@).contains(x) by {
            if x == name@ {
                assert(v@[pos as int]@ == x);
            } else {
                let i = choose|i: int| 0 <= i < before.len() && before[i]@ == x;
                if i < pos {
                    assert(v@[i]@ == x);
                } else {
                    assert(v@[i + 1]@ == x);
                }
            }
        }
        assert(name_views(v@) =~= name_views(before).insert(name@));
    }
}

/// Registry for custom scale definitions
#[derive(Debug)]
pub struct ScaleRegistry {
    custom_scales: Vec<CustomScaleDefinition>,
}

impl ScaleRegistry {
    /// The registered definitions, in registration order.
    pub closed spec fn defs(self) -> Seq<CustomScaleDefinition> {
        self.custom_scales@
    }

    /// Index of the first definition with the given name, if any.
    pub open spec fn spec_find(self, name: Seq<char>, i: int) -> Option<int>
        decreases self.defs().len() - i,
    {
        if i < 0 || i >= self.defs().len() {
            None
        } else if self.defs()[i].name@ == name {
            Some(i)
        } else {
            self.spec_find(name, i + 1)
        }
    }

    /// Create a new empty registry
    pub fn new() -> (r: Self)
        ensures
            r.defs().len() == 0,
    {
        Self { custom_scales: Vec::new() }
    }

    /// Register a custom scale, replacing any definition of the same name.
    pub fn register(&mut self, def: CustomScaleDefinition)
        ensures
            match old(self).spec_find(def.name@, 0) {
                Some(i) => final(self).defs() == old(self).defs().update(i, def),
                None => final(self).defs() == old(self).defs().push(def),
            },
    {
        let n = self.custom_scales.len();
        let mut i: usize = 0;
        while i < n
            invariant
                0 <= i <= n,
                n == self.defs().len(),
                self.defs() == old(self).defs(),
                old(self).spec_find(def.name@, 0) == old(self).spec_find(def.name@, i as int),
            decreases n - i,
        {
            if crate::text::str_eq(self.custom_scales[i].name.as_str(), def.name.as_str()) {
                self.custom_scales.set(i, def);
                return;
            }
            i = i + 1;
        }
        self.custom_scales.push(def);
    }

    /// Get a scale by name (checks custom first, then built-in)
    pub fn get_scale(&self, root: Note, name: &str) -> (r: Option<Scale>)
        ensures
            match self.spec_find(name@, 0) {
                Some(i) => {
                    &&& r is Some
                    &&& r->0.spec_root() == root
                    &&& r->0.spec_type() == ScaleType::Custom
                    &&& r->0.ivals() == self.defs()[i].intervals@
                },
                None => match ScaleType::spec_parse(name@) {
                    Some(st) => {
                        &&& r is Some
                        &&& r->0.spec_root() == root
                        &&& r->0.spec_type() == st
                        &&& r->0.ivals() == st.spec_intervals()
                    },
                    None => r is None,
                },
            },
    {
        let n = self.custom_scales.len();
        let mut i: usize = 0;
        while i < n
            invariant
                0 <= i <= n,
                n == self.defs().len(),
                self.spec_find(name@, 0) == self.spec_find(name@, i as int),
            decreases n - i,
        {
            if crate::text::str_eq(self.custom_scales[i].name.as_str(), name) {
                return Some(self.custom_scales[i].to_scale(root));
            }
            i = i + 1;
        }
        match ScaleType::from_str(name) {
            Some(st) => Some(Scale::new(root, st)),
            None => None,
        }
    }

    /// List all available scale names: the custom names and the built-in
    /// names, in lexicographic order without duplicates.
    pub fn available_scales(&self) -> (r: Vec<String>)
        ensures
            strictly_sorted_names(r@),
            name_views(r@) == name_views(self.defs().map_values(|d: CustomScaleDefinition| d.name))
                .union(builtin_scale_names()),
    {
        let ghost custom_names = self.defs().map_values(|d: CustomScaleDefinition| d.name);
        let mut names: Vec<String> = Vec::new();
        let n = self.custom_scales.len();
        let mut i: usize = 0;
        proof {
            assert(name_views(names@) =~= name_views(custom_names.take(0)));
        }
        while i < n
            invariant
                0 <= i <= n,
                n == self.defs().len(),
                custom_names == self.defs().map_values(|d: CustomScaleDefinition| d.name),
                strictly_sorted_names(names@),
                name_views(names@) == name_views(custom_names.take(i as int)),
            decreases n - i,
        {
            let nm = crate::text::clone_string(&self.custom_scales[i].name);
            insert_name(&mut names, nm);
            proof {
                let t0 = custom_names.take(i as int);
                let t1 = custom_names.take(i as int + 1);
                assert forall|x: Seq<char>| name_views(t1).contains(x)
                    implies name_views(t0).insert(custom_names[i as int]@).contains(x) by {
                    let k = choose|k: int| 0 <= k < t1.len() && t1[k]@ == x;
                    if k < i as int {
                        assert(t0[k]@ == x);
                    }
                }
                assert forall|x: Seq<char>| name_views(t0).insert(custom_names[i as int]@).contains(x)
                    implies name_views(t1).contains(x) by {
                    if x == custom_names[i as int]@ {
                        assert(t1[i as int]@ == x);
                    } else {
                        let k = choose|k: int| 0 <= k < t0.len() && t0[k]@ == x;
                        assert(t1[k]@ == x);
                    }
                }
                assert(name_views(t1) =~= name_views(t0).insert(custom_names[i as int]@));
            }
            i = i + 1;
        }
        proof {
            assert(custom_names.take(n as int) =~= custom_names);
        }

        // Add built-in scale names
        proof {
            reveal_strlit("major");
            reveal_strlit("dorian");
            reveal_strlit("phrygian");
            reveal_strlit("lydian");
            reveal_strlit("mixolydian");
            reveal_strlit("minor");
            reveal_strlit("locrian");
            reveal_strlit("harmonic_minor");
            reveal_strlit("melodic_minor");
            reveal_strlit("major_pentatonic");
            reveal_strlit("minor_pentatonic");
            reveal_strlit("blues");
            reveal_strlit("major_blues");
            reveal_strlit("whole_tone");
            reveal_strlit("diminished");
            reveal_strlit("chromatic");
        }
        insert_name(&mut names, ("major").to_owned());
        insert_name(&mut names, ("dorian").to_owned());
        insert_name(&mut names, ("phrygian").to_owned());
        insert_name(&mut names, ("lydian").to_owned());
        insert_name(&mut names, ("mixolydian").to_owned());
        insert_name(&mut names, ("minor").to_owned());
        insert_name(&mut names, ("locrian").to_owned());
        insert_name(&mut names, ("harmonic_minor").to_owned());
        insert_name(&mut names, ("melodic_minor").to_owned());
        insert_name(&mut names, ("major_pentatonic").to_owned());
        insert_name(&mut names, ("minor_pentatonic").to_owned());
        insert_name(&mut names, ("blues").to_owned());
        insert_name(&mut names, ("major_blues").to_owned());
        insert_name(&mut names, ("whole_tone").to_owned());
        insert_name(&mut names, ("diminished").to_owned());
        insert_name(&mut names, ("chromatic").to_owned());
        proof {
            assert(name_views(names@) =~= name_views(custom_names).union(builtin_scale_names()));
        }
        names
    }
}

} // verus!
