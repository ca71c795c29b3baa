//! The note display the front end draws for a track.

use vstd::prelude::*;

verus! {

/// The notes a track currently sounds, with the displayed note range.
#[derive(Debug)]
pub struct NoteDisplayWidget {
    /// The sounding notes
    pub notes: Vec<u8>,
    /// The displayed note range (low, high)
    pub range: (u8, u8),
}

impl NoteDisplayWidget {
    /// Create a display over the default range from C2 to C7.
    pub fn new(notes: Vec<u8>) -> (r: Self)
        ensures
            r.notes@ == notes@,
            r.range == (36u8, 96u8),
    {
        Self { notes, range: (36, 96) }
    }

    /// Set the display range.
    pub fn range(self, low: u8, high: u8) -> (r: Self)
        ensures
            r.notes@ == self.notes@,
            r.range == (low, high),
    {
        NoteDisplayWidget { range: (low, high), ..self }
    }
}

} // verus!
