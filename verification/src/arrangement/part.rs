//! Parts system for managing track clip/generator states.
//!
//! A Part represents a collection of track states that can be triggered
//! together, enabling quick arrangement changes; transitions between
//! parts are quantized to musical boundaries.

use vstd::prelude::*;

use crate::sequencer::track::TrackState;

verus! {

/// State of a clip on a track within a part
#[derive(Debug, PartialEq)]
pub enum TrackClipState {
    /// No clip assigned
    Empty,
    /// Play specific clip by index
    Clip(usize),
    /// Play specific generator by name
    Generator(String),
    /// Stop playback on this track
    Stop,
    /// Keep current state (no change)
    Hold,
}

impl Clone for TrackClipState {
    /// Clone the state; the copy equals the original.
    fn clone(&self) -> (r: Self)
        ensures
            match *self {
                TrackClipState::Empty => r == TrackClipState::Empty,
                TrackClipState::Clip(i) => r == TrackClipState::Clip(i),
                TrackClipState::Generator(ref name) => (r matches
                    TrackClipState::Generator(n) && n@ == name@),
                TrackClipState::Stop => r == TrackClipState::Stop,
                TrackClipState::Hold => r == TrackClipState::Hold,
            },
    {
        match self {
            TrackClipState::Empty => TrackClipState::Empty,
            TrackClipState::Clip(i) => TrackClipState::Clip(*i),
            TrackClipState::Generator(name) => {
                TrackClipState::Generator(crate::text::clone_string(name))
            },
            TrackClipState::Stop => TrackClipState::Stop,
            TrackClipState::Hold => TrackClipState::Hold,
        }
    }
}

/// Transition mode between parts
#[derive(Debug, Clone, Copy, PartialEq, Eq, Structural)]
pub enum PartTransition {
    /// Immediate transition (may cause abrupt changes)
    Immediate,
    /// Wait for next beat
    NextBeat,
    /// Wait for next bar
    NextBar,
    /// Wait for specified number of beats
    Beats(u32),
    /// Wait for specified number of bars
    Bars(u32),
    /// Wait for end of current phrase (four bars)
    EndOfPhrase,
    /// Swap after the given number of ticks
    Crossfade(u32),
}

impl Default for PartTransition {
    /// Parts change on the next bar unless configured otherwise.
    fn default() -> (r: Self)
        ensures
            r == PartTransition::NextBar,
    {
        PartTransition::NextBar
    }
}

/// The tick a transition lands on: now for Immediate; the next beat, bar
/// or four-bar phrase boundary (now when already on one); whole beats or
/// bars ahead for Beats(n)/Bars(n); and a plain tick delay for Crossfade.
pub open spec fn spec_transition_tick(current_tick: int, transition: PartTransition,
    ppqn: int, beats_per_bar: int) -> int {
    let ticks_per_beat = ppqn;
    let ticks_per_bar = ppqn * beats_per_bar;
    match transition {
        PartTransition::Immediate => current_tick,
        PartTransition::NextBeat => {
            let into = current_tick % ticks_per_beat;
            if into == 0 { current_tick } else { current_tick + (ticks_per_beat - into) }
        },
        PartTransition::NextBar => {
            let into = current_tick % ticks_per_bar;
            if into == 0 { current_tick } else { current_tick + (ticks_per_bar - into) }
        },
        PartTransition::Beats(n) => current_tick + n * ticks_per_beat,
        PartTransition::Bars(n) => current_tick + n * ticks_per_bar,
        PartTransition::EndOfPhrase => {
            let phrase = ticks_per_bar * 4;
            let into = current_tick % phrase;
            if into == 0 { current_tick } else { current_tick + (phrase - into) }
        },
        PartTransition::Crossfade(d) => current_tick + d,
    }
}

/// A part definition: per-track clip states, per-track playback
/// overrides, a transition mode, and an optional duration and follow
/// part.
#[derive(Debug)]
pub struct Part {
    /// Part name
    pub name: String,
    /// Clip state per track index (indices beyond the list hold)
    pub track_states: Vec<TrackClipState>,
    /// Playback override per track index (None = keep)
    pub playback_states: Vec<Option<TrackState>>,
    /// Transition mode for this part
    pub transition: PartTransition,
    /// Number of bars to play (None = indefinite)
    pub duration_bars: Option<u32>,
    /// Part to trigger after this one
    pub follow_part: Option<String>,
}

impl Part {
    /// Create a new empty part changing on the next bar.
    pub fn new(name: String) -> (r: Self)
        ensures
            r.name@ == name@,
            r.track_states@.len() == 0,
            r.playback_states@.len() == 0,
            r.transition == PartTransition::NextBar,
            r.duration_bars is None,
            r.follow_part is None,
    {
        Self {
            name,
            track_states: Vec::new(),
            playback_states: Vec::new(),
            transition: PartTransition::NextBar,
            duration_bars: None,
            follow_part: None,
        }
    }

    /// The clip state of a track: entries beyond the list hold.
    pub fn track_state(&self, track: usize) -> (r: TrackClipState)
        ensures
            track < self.track_states@.len() ==> match self.track_states@[track as int] {
                TrackClipState::Empty => r == TrackClipState::Empty,
                TrackClipState::Clip(i) => r == TrackClipState::Clip(i),
                TrackClipState::Generator(ref name) => (r matches
                    TrackClipState::Generator(n) && n@ == name@),
                TrackClipState::Stop => r == TrackClipState::Stop,
                TrackClipState::Hold => r == TrackClipState::Hold,
            },
            track >= self.track_states@.len() ==> r == TrackClipState::Hold,
    {
        if track < self.track_states.len() {
            self.track_states[track].clone()
        } else {
            TrackClipState::Hold
        }
    }

    /// Set the clip state of a track, growing the list with holds.
    pub fn set_track_state(&mut self, track: usize, state: TrackClipState)
        requires
            track < 1000,
        ensures
            final(self).track_states@.len() > track,
            final(self).track_states@[track as int] == state,
            final(self).name@ == old(self).name@,
    {
        while self.track_states.len() <= track
            invariant
                track < 1000,
                self.name@ == old(self).name@,
                self.playback_states@ == old(self).playback_states@,
                self.transition == old(self).transition,
                self.duration_bars == old(self).duration_bars,
            decreases track + 1 - self.track_states@.len(),
        {
            self.track_states.push(TrackClipState::Hold);
        }
        self.track_states.set(track, state);
    }
}

/// Pending part transition
#[derive(Debug)]
pub struct PendingTransition {
    /// Target part name
    pub target: String,
    /// Scheduled tick for transition
    pub scheduled_tick: u64,
    /// Original transition mode
    pub transition: PartTransition,
}

/// Manages parts and transitions
pub struct PartManager {
    /// All parts, in registration order; names are unique
    parts: Vec<Part>,
    /// Currently active part index
    current_part: Option<usize>,
    /// Pending transition (if any)
    pending: Option<PendingTransition>,
}

impl PartManager {
    /// The parts in registration order.
    pub closed spec fn spec_parts(self) -> Seq<Part> {
        self.parts@
    }

    /// The current part index, if any.
    pub closed spec fn spec_current(self) -> Option<usize> {
        self.current_part
    }

    /// The pending transition, if any.
    pub closed spec fn spec_pending(self) -> Option<PendingTransition> {
        self.pending
    }

    /// The current index inside the parts.
    pub open spec fn wf(self) -> bool {
        match self.spec_current() {
            Some(i) => i < self.spec_parts().len(),
            None => true,
        }
    }

    /// Create a new part manager
    pub fn new() -> (r: Self)
        ensures
            r.wf(),
            r.spec_parts().len() == 0,
            r.spec_current() is None,
            r.spec_pending() is None,
    {
        Self { parts: Vec::new(), current_part: None, pending: None }
    }

    /// Index of the first part with the given name.
    fn find_part(&self, name: &str) -> (r: Option<usize>)
        ensures
            match r {
                Some(i) => i < self.spec_parts().len()
                    && self.spec_parts()[i as int].name@ == name@,
                None => forall|i: int| 0 <= i < self.spec_parts().len()
                    ==> (#[trigger] self.spec_parts()[i]).name@ != name@,
            },
    {
        let n = self.parts.len();
        let mut i: usize = 0;
        while i < n
            invariant
                0 <= i <= n,
                n == self.spec_parts().len(),
                forall|j: int| 0 <= j < i
                    ==> (#[trigger] self.spec_parts()[j]).name@ != name@,
            decreases n - i,
        {
            if crate::text::str_eq(self.parts[i].name.as_str(), name) {
                return Some(i);
            }
            i = i + 1;
        }
        None
    }

    /// Add a part, replacing any part of the same name.
    pub fn add_part(&mut self, part: Part)
        requires
            old(self).wf(),
        ensures
            final(self).wf(),
            final(self).spec_parts().len() >= old(self).spec_parts().len(),
            final(self).spec_parts().len() <= old(self).spec_parts().len() + 1,
    {
        let existing = self.find_part(part.name.as_str());
        match existing {
            Some(i) => {
                self.parts.set(i, part);
            },
            None => {
                self.parts.push(part);
            },
        }
    }

    /// The part with the given name, if registered.
    pub fn get_part(&self, name: &str) -> (r: Option<&Part>)
        ensures
            match r {
                Some(p) => p.name@ == name@,
                None => true,
            },
    {
        match self.find_part(name) {
            Some(i) => Some(&self.parts[i]),
            None => None,
        }
    }

    /// Number of parts
    pub fn len(&self) -> (r: usize)
        ensures
            r == self.spec_parts().len(),
    {
        self.parts.len()
    }

    /// Whether no parts are registered.
    pub fn is_empty(&self) -> (r: bool)
        ensures
            r == (self.spec_parts().len() == 0),
    {
        self.parts.len() == 0
    }

    /// The current part's name, if any.
    pub fn current_part(&self) -> (r: Option<&str>)
        requires
            self.wf(),
        ensures
            match (r, self.spec_current()) {
                (Some(name), Some(i)) => name@ == self.spec_parts()[i as int].name@,
                (None, None) => true,
                _ => false,
            },
    {
        match self.current_part {
            Some(i) => Some(self.parts[i].name.as_str()),
            None => None,
        }
    }

    /// When the named part's transition lands from the given position.
    pub fn calculate_transition_tick(&self, current_tick: u64, transition: PartTransition,
        ppqn: u32, beats_per_bar: u8) -> (r: u64)
        requires
            ppqn >= 1,
            beats_per_bar >= 1,
            current_tick <= 0x1000_0000_0000_0000,
        ensures
            r == crate::spec_clamp(spec_transition_tick(current_tick as int, transition,
                ppqn as int, beats_per_bar as int), 0, u64::MAX as int),
    {
        let ticks_per_beat = ppqn as u64;
        proof {
            vstd::arithmetic::mul::lemma_mul_strictly_positive(
                ppqn as int, beats_per_bar as int);
            vstd::arithmetic::mul::lemma_mul_upper_bound(
                ppqn as int, 0x1_0000_0000, beats_per_bar as int, 256);
        }
        let ticks_per_bar = ticks_per_beat * beats_per_bar as u64;

        match transition {
            PartTransition::Immediate => current_tick,
            PartTransition::NextBeat => {
                let into = current_tick % ticks_per_beat;
                if into == 0 {
                    current_tick
                } else {
                    current_tick + (ticks_per_beat - into)
                }
            },
            PartTransition::NextBar => {
                let into = current_tick % ticks_per_bar;
                if into == 0 {
                    current_tick
                } else {
                    current_tick + (ticks_per_bar - into)
                }
            },
            PartTransition::Beats(n) => {
                proof {
                    vstd::arithmetic::mul::lemma_mul_nonnegative(
                        n as int, ticks_per_beat as int);
                    vstd::arithmetic::mul::lemma_mul_upper_bound(
                        n as int, 0x1_0000_0000, ticks_per_beat as int, 0x1_0000_0000);
                }
                let sum: u128 = current_tick as u128
                    + n as u128 * ticks_per_beat as u128;
                if sum > u64::MAX as u128 { u64::MAX } else { sum as u64 }
            },
            PartTransition::Bars(n) => {
                proof {
                    vstd::arithmetic::mul::lemma_mul_nonnegative(
                        n as int, ticks_per_bar as int);
                    vstd::arithmetic::mul::lemma_mul_upper_bound(
                        n as int, 0x1_0000_0000, ticks_per_bar as int, 0x100_0000_0000);
                }
                let sum: u128 = current_tick as u128
                    + n as u128 * ticks_per_bar as u128;
                if sum > u64::MAX as u128 { u64::MAX } else { sum as u64 }
            },
            PartTransition::EndOfPhrase => {
                let phrase = ticks_per_bar * 4;
                let into = current_tick % phrase;
                if into == 0 {
                    current_tick
                } else {
                    current_tick + (phrase - into)
                }
            },
            PartTransition::Crossfade(d) => current_tick + d as u64,
        }
    }

    /// Trigger a part transition: an immediate one lands now, any other
    /// is queued for its boundary. Reports whether the name is known.
    pub fn trigger_part(&mut self, name: &str, current_tick: u64, ppqn: u32,
        beats_per_bar: u8) -> (r: bool)
        requires
            old(self).wf(),
            ppqn >= 1,
            beats_per_bar >= 1,
            current_tick <= 0x1000_0000_0000_0000,
        ensures
            final(self).wf(),
            final(self).spec_parts() == old(self).spec_parts(),
            r == exists|i: int| 0 <= i < old(self).spec_parts().len()
                && (#[trigger] old(self).spec_parts()[i]).name@ == name@,
            !r ==> *final(self) == *old(self),
            r ==> exists|i: int| {
                &&& 0 <= i < old(self).spec_parts().len()
                &&& (#[trigger] old(self).spec_parts()[i]).name@ == name@
                &&& {
                    let landing = crate::spec_clamp(spec_transition_tick(
                        current_tick as int, old(self).spec_parts()[i].transition,
                        ppqn as int, beats_per_bar as int), 0, u64::MAX as int);
                    if landing == current_tick {
                        final(self).spec_current() == Some(i as usize)
                            && final(self).spec_pending() is None
                    } else {
                        final(self).spec_pending() matches Some(p)
                            && p.target@ == name@
                            && p.scheduled_tick == landing
                    }
                }
            },
    {
        let found = self.find_part(name);
        match found {
            Some(i) => {
                let transition = self.parts[i].transition;
                let scheduled_tick = self.calculate_transition_tick(
                    current_tick, transition, ppqn, beats_per_bar);
                if scheduled_tick == current_tick {
                    // Immediate transition
                    self.current_part = Some(i);
                    self.pending = None;
                } else {
                    // Queue the transition
                    self.pending = Some(PendingTransition {
                        target: crate::text::clone_string(&self.parts[i].name),
                        scheduled_tick,
                        transition,
                    });
                }
                true
            },
            None => false,
        }
    }

    /// Commit a pending transition once its tick is reached; reports the
    /// new current part's index.
    pub fn update(&mut self, current_tick: u64) -> (r: Option<usize>)
        requires
            old(self).wf(),
        ensures
            final(self).wf(),
            final(self).spec_parts() == old(self).spec_parts(),
            match old(self).spec_pending() {
                Some(p) => {
                    if p.scheduled_tick <= current_tick {
                        &&& final(self).spec_pending() is None
                        &&& (r is Some <==> exists|i: int| 0 <= i < old(self).spec_parts().len()
                            && (#[trigger] old(self).spec_parts()[i]).name@ == p.target@)
                        &&& match r {
                            Some(i) => i < old(self).spec_parts().len()
                                && old(self).spec_parts()[i as int].name@ == p.target@
                                && final(self).spec_current() == Some(i),
                            None => final(self).spec_current() == old(self).spec_current(),
                        }
                    } else {
                        &&& r is None
                        &&& *final(self) == *old(self)
                    }
                },
                None => r is None && *final(self) == *old(self),
            },
    {
        let due = match &self.pending {
            Some(pending) => pending.scheduled_tick <= current_tick,
            None => false,
        };
        if !due {
            return None;
        }
        let mut held = None;
        std::mem::swap(&mut held, &mut self.pending);
        match held {
            Some(pending) => {
                let target = self.find_part(pending.target.as_str());
                match target {
                    Some(i) => {
                        self.current_part = Some(i);
                        Some(i)
                    },
                    None => None,
                }
            },
            None => None,
        }
    }

    /// The pending transition, if any.
    pub fn pending_transition(&self) -> (r: Option<&PendingTransition>)
        ensures
            r is Some == self.spec_pending() is Some,
    {
        self.pending.as_ref()
    }

    /// Cancel any pending transition.
    pub fn cancel_pending(&mut self)
        requires
            old(self).wf(),
        ensures
            final(self).wf(),
            final(self).spec_pending() is None,
            final(self).spec_parts() == old(self).spec_parts(),
            final(self).spec_current() == old(self).spec_current(),
    {
        self.pending = None;
    }

    /// The name after the current part, wrapping; the first name when
    /// none is current.
    pub fn next_part(&self) -> (r: Option<&str>)
        requires
            self.wf(),
        ensures
            r is Some == (self.spec_parts().len() > 0),
    {
        if self.parts.len() == 0 {
            return None;
        }
        match self.current_part {
            Some(i) => {
                let next = if i < self.parts.len() - 1 { i + 1 } else { 0 };
                Some(self.parts[next].name.as_str())
            },
            None => Some(self.parts[0].name.as_str()),
        }
    }

    /// The name before the current part, wrapping; the last name when
    /// none is current.
    pub fn prev_part(&self) -> (r: Option<&str>)
        requires
            self.wf(),
        ensures
            r is Some == (self.spec_parts().len() > 0),
    {
        if self.parts.len() == 0 {
            return None;
        }
        match self.current_part {
            Some(i) => {
                let prev = if i == 0 { self.parts.len() - 1 } else { i - 1 };
                Some(self.parts[prev].name.as_str())
            },
            None => Some(self.parts[self.parts.len() - 1].name.as_str()),
        }
    }
}

} // verus!
