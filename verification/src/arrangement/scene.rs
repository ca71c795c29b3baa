//! Scene system for track state snapshots.
//!
//! Scenes represent a horizontal row in a track-by-scene matrix, enabling
//! coordinated triggering of multiple track clips at quantized launch
//! boundaries.

use vstd::prelude::*;

use crate::sequencer::trigger::FollowAction;

verus! {

/// A slot in the scene matrix (track and scene intersection)
#[derive(Debug, PartialEq)]
pub enum SceneSlot {
    /// Empty slot
    Empty,
    /// Clip index
    Clip(usize),
    /// Generator name
    Generator(String),
    /// Stop playback
    Stop,
    /// No change (keep current)
    Hold,
}

impl Clone for SceneSlot {
    /// Clone the slot; the copy equals the original.
    fn clone(&self) -> (r: Self)
        ensures
            match *self {
                SceneSlot::Empty => r == SceneSlot::Empty,
                SceneSlot::Clip(i) => r == SceneSlot::Clip(i),
                SceneSlot::Generator(ref name) => (r matches SceneSlot::Generator(n)
                    && n@ == name@),
                SceneSlot::Stop => r == SceneSlot::Stop,
                SceneSlot::Hold => r == SceneSlot::Hold,
            },
    {
        match self {
            SceneSlot::Empty => SceneSlot::Empty,
            SceneSlot::Clip(i) => SceneSlot::Clip(*i),
            SceneSlot::Generator(name) => SceneSlot::Generator(crate::text::clone_string(name)),
            SceneSlot::Stop => SceneSlot::Stop,
            SceneSlot::Hold => SceneSlot::Hold,
        }
    }
}

/// Scene launch quantization
#[derive(Debug, Clone, Copy, PartialEq, Eq, Structural)]
pub enum SceneLaunchMode {
    /// Launch immediately
    Immediate,
    /// Quantize to beat
    Beat,
    /// Quantize to bar
    Bar,
    /// Quantize to specific beat count
    Beats(u32),
    /// Quantize to specific bar count
    Bars(u32),
}

impl Default for SceneLaunchMode {
    /// Scenes launch on the next bar unless configured otherwise.
    fn default() -> (r: Self)
        ensures
            r == SceneLaunchMode::Bar,
    {
        SceneLaunchMode::Bar
    }
}

/// The tick a launch lands on: now for Immediate, the next beat or bar
/// boundary (now when already on one), or whole beats or bars ahead.
pub open spec fn spec_launch_tick(current_tick: int, mode: SceneLaunchMode, ppqn: int,
    beats_per_bar: int) -> int {
    let ticks_per_beat = ppqn;
    let ticks_per_bar = ppqn * beats_per_bar;
    match mode {
        SceneLaunchMode::Immediate => current_tick,
        SceneLaunchMode::Beat => {
            let into = current_tick % ticks_per_beat;
            if into == 0 { current_tick } else { current_tick + (ticks_per_beat - into) }
        },
        SceneLaunchMode::Bar => {
            let into = current_tick % ticks_per_bar;
            if into == 0 { current_tick } else { current_tick + (ticks_per_bar - into) }
        },
        SceneLaunchMode::Beats(n) => current_tick + n * ticks_per_beat,
        SceneLaunchMode::Bars(n) => current_tick + n * ticks_per_bar,
    }
}

/// A scene (horizontal row of clips/slots)
#[derive(Debug)]
pub struct Scene {
    /// Scene name
    pub name: String,
    /// Slots, one per track index (tracks beyond the list hold)
    pub slots: Vec<SceneSlot>,
    /// Launch mode for this scene
    pub launch_mode: SceneLaunchMode,
    /// Follow action after the scene plays
    pub follow_action: FollowAction,
    /// Duration in bars before the follow action (None = indefinitely)
    pub follow_after_bars: Option<u32>,
}

impl Scene {
    /// Create a new empty scene launching on the next bar.
    pub fn new(name: String) -> (r: Self)
        ensures
            r.name@ == name@,
            r.slots@.len() == 0,
            r.launch_mode == SceneLaunchMode::Bar,
            r.follow_action == FollowAction::NoAction,
            r.follow_after_bars is None,
    {
        Self {
            name,
            slots: Vec::new(),
            launch_mode: SceneLaunchMode::Bar,
            follow_action: FollowAction::NoAction,
            follow_after_bars: None,
        }
    }

    /// The slot of a track: tracks beyond the list read as empty.
    pub fn slot(&self, track: usize) -> (r: SceneSlot)
        ensures
            track < self.slots@.len() ==> match self.slots@[track as int] {
                SceneSlot::Empty => r == SceneSlot::Empty,
                SceneSlot::Clip(i) => r == SceneSlot::Clip(i),
                SceneSlot::Generator(ref name) => (r matches SceneSlot::Generator(n)
                    && n@ == name@),
                SceneSlot::Stop => r == SceneSlot::Stop,
                SceneSlot::Hold => r == SceneSlot::Hold,
            },
            track >= self.slots@.len() ==> r == SceneSlot::Empty,
    {
        if track < self.slots.len() {
            self.slots[track].clone()
        } else {
            SceneSlot::Empty
        }
    }

    /// Set the slot of a track, growing the list with empty slots.
    pub fn set_slot(&mut self, track: usize, slot: SceneSlot)
        requires
            track < 1000,
        ensures
            final(self).slots@.len() > track,
            final(self).slots@[track as int] == slot,
            final(self).name@ == old(self).name@,
    {
        while self.slots.len() <= track
            invariant
                track < 1000,
                self.name@ == old(self).name@,
                self.launch_mode == old(self).launch_mode,
                self.follow_after_bars == old(self).follow_after_bars,
            decreases track + 1 - self.slots@.len(),
        {
            self.slots.push(SceneSlot::Empty);
        }
        self.slots.set(track, slot);
    }
}

/// Pending scene launch
#[derive(Debug, Clone, Copy, PartialEq, Eq, Structural)]
pub struct PendingSceneLaunch {
    /// Scene index
    pub scene_index: usize,
    /// Scheduled tick
    pub scheduled_tick: u64,
}

/// Manages scenes in a matrix layout
pub struct SceneManager {
    /// All scenes
    scenes: Vec<Scene>,
    /// Currently playing scene index
    current_scene: Option<usize>,
    /// Pending scene launch
    pending: Option<PendingSceneLaunch>,
    /// Tick when the current scene started
    scene_start_tick: u64,
}

impl SceneManager {
    /// The scenes in order.
    pub closed spec fn spec_scenes(self) -> Seq<Scene> {
        self.scenes@
    }

    /// The current scene index, if any.
    pub closed spec fn spec_current(self) -> Option<usize> {
        self.current_scene
    }

    /// The pending launch, if any.
    pub closed spec fn spec_pending(self) -> Option<PendingSceneLaunch> {
        self.pending
    }

    /// The tick the current scene started at.
    pub closed spec fn spec_scene_start(self) -> int {
        self.scene_start_tick as int
    }

    /// The current index inside the scenes.
    pub open spec fn wf(self) -> bool {
        match self.spec_current() {
            Some(i) => i < self.spec_scenes().len(),
            None => true,
        }
    }

    /// Create a new scene manager
    pub fn new() -> (r: Self)
        ensures
            r.wf(),
            r.spec_scenes().len() == 0,
            r.spec_current() is None,
            r.spec_pending() is None,
    {
        Self { scenes: Vec::new(), current_scene: None, pending: None, scene_start_tick: 0 }
    }

    /// Add a scene at the end, returning its index.
    pub fn add_scene(&mut self, scene: Scene) -> (r: usize)
        requires
            old(self).wf(),
        ensures
            final(self).wf(),
            final(self).spec_scenes().len() == old(self).spec_scenes().len() + 1,
            r == old(self).spec_scenes().len(),
    {
        self.scenes.push(scene);
        self.scenes.len() - 1
    }

    /// The scene at an index.
    pub fn get_scene(&self, index: usize) -> (r: Option<&Scene>)
        ensures
            match r {
                Some(s) => index < self.spec_scenes().len()
                    && *s == self.spec_scenes()[index as int],
                None => index >= self.spec_scenes().len(),
            },
    {
        if index < self.scenes.len() {
            Some(&self.scenes[index])
        } else {
            None
        }
    }

    /// Number of scenes
    pub fn scene_count(&self) -> (r: usize)
        ensures
            r == self.spec_scenes().len(),
    {
        self.scenes.len()
    }

    /// Get current scene index
    pub fn current_scene(&self) -> (r: Option<usize>)
        ensures
            r == self.spec_current(),
    {
        self.current_scene
    }

    /// When the given launch mode lands from the given position.
    pub fn calculate_launch_tick(&self, current_tick: u64, mode: SceneLaunchMode,
        ppqn: u32, beats_per_bar: u8) -> (r: u64)
        requires
            ppqn >= 1,
            beats_per_bar >= 1,
            current_tick <= 0x1000_0000_0000_0000,
        ensures
            r == crate::spec_clamp(spec_launch_tick(current_tick as int, mode, ppqn as int,
                beats_per_bar as int), 0, u64::MAX as int),
    {
        let ticks_per_beat = ppqn as u64;
        proof {
            vstd::arithmetic::mul::lemma_mul_strictly_positive(
                ppqn as int, beats_per_bar as int);
            vstd::arithmetic::mul::lemma_mul_upper_bound(
                ppqn as int, 0x1_0000_0000, beats_per_bar as int, 256);
        }
        let ticks_per_bar = ticks_per_beat * beats_per_bar as u64;

        match mode {
            SceneLaunchMode::Immediate => current_tick,
            SceneLaunchMode::Beat => {
                let into = current_tick % ticks_per_beat;
                if into == 0 {
                    current_tick
                } else {
                    current_tick + (ticks_per_beat - into)
                }
            },
            SceneLaunchMode::Bar => {
                let into = current_tick % ticks_per_bar;
                if into == 0 {
                    current_tick
                } else {
                    current_tick + (ticks_per_bar - into)
                }
            },
            SceneLaunchMode::Beats(n) => {
                proof {
                    vstd::arithmetic::mul::lemma_mul_nonnegative(
                        n as int, ticks_per_beat as int);
                    vstd::arithmetic::mul::lemma_mul_upper_bound(
                        n as int, 0x1_0000_0000, ticks_per_beat as int, 0x1_0000_0000);
                }
                let sum: u128 = current_tick as u128
                    + n as u128 * ticks_per_beat as u128;
                if sum > u64::MAX as u128 { u64::MAX } else { sum as u64 }
            },
            SceneLaunchMode::Bars(n) => {
                proof {
                    vstd::arithmetic::mul::lemma_mul_nonnegative(n as int, ticks_per_bar as int);
                    vstd::arithmetic::mul::lemma_mul_upper_bound(
                        n as int, 0x1_0000_0000, ticks_per_bar as int, 0x100_0000_0000);
                }
                let sum: u128 = current_tick as u128
                    + n as u128 * ticks_per_bar as u128;
                if sum > u64::MAX as u128 { u64::MAX } else { sum as u64 }
            },
        }
    }

    /// Launch a scene: an immediate mode makes it current now, any other
    /// queues it for its boundary. Reports whether the index exists.
    pub fn launch_scene(&mut self, index: usize, current_tick: u64, ppqn: u32,
        beats_per_bar: u8) -> (r: bool)
        requires
            old(self).wf(),
            ppqn >= 1,
            beats_per_bar >= 1,
            current_tick <= 0x1000_0000_0000_0000,
        ensures
            final(self).wf(),
            final(self).spec_scenes() == old(self).spec_scenes(),
            r == (index < old(self).spec_scenes().len()),
            !r ==> *final(self) == *old(self),
            r ==> {
                let landing = crate::spec_clamp(spec_launch_tick(current_tick as int,
                    old(self).spec_scenes()[index as int].launch_mode,
                    ppqn as int, beats_per_bar as int), 0, u64::MAX as int);
                if landing == current_tick {
                    &&& final(self).spec_current() == Some(index)
                    &&& final(self).spec_pending() is None
                    &&& final(self).spec_scene_start() == current_tick
                } else {
                    &&& final(self).spec_pending() == Some(PendingSceneLaunch {
                        scene_index: index,
                        scheduled_tick: landing as u64,
                    })
                    &&& final(self).spec_current() == old(self).spec_current()
                    &&& final(self).spec_scene_start() == old(self).spec_scene_start()
                }
            },
    {
        if index < self.scenes.len() {
            let mode = self.scenes[index].launch_mode;
            let scheduled_tick = self.calculate_launch_tick(
                current_tick, mode, ppqn, beats_per_bar);
            if scheduled_tick == current_tick {
                self.current_scene = Some(index);
                self.scene_start_tick = current_tick;
                self.pending = None;
            } else {
                self.pending = Some(PendingSceneLaunch { scene_index: index, scheduled_tick });
            }
            true
        } else {
            false
        }
    }

    /// Commit a pending launch once its tick is reached; reports the
    /// launched scene's index.
    pub fn update(&mut self, current_tick: u64) -> (r: Option<usize>)
        requires
            old(self).wf(),
        ensures
            final(self).wf(),
            final(self).spec_scenes() == old(self).spec_scenes(),
            match old(self).spec_pending() {
                Some(p) => {
                    if p.scheduled_tick <= current_tick
                        && p.scene_index < old(self).spec_scenes().len() {
                        &&& r == Some(p.scene_index)
                        &&& final(self).spec_current() == Some(p.scene_index)
                        &&& final(self).spec_pending() is None
                        &&& final(self).spec_scene_start() == current_tick
                    } else {
                        &&& r is None
                        &&& *final(self) == *old(self)
                    }
                },
                None => r is None && *final(self) == *old(self),
            },
    {
        let launch = match &self.pending {
            Some(pending) => {
                if current_tick >= pending.scheduled_tick
                    && pending.scene_index < self.scenes.len() {
                    Some(pending.scene_index)
                } else {
                    None
                }
            },
            None => None,
        };
        match launch {
            Some(index) => {
                self.pending = None;
                self.current_scene = Some(index);
                self.scene_start_tick = current_tick;
                Some(index)
            },
            None => None,
        }
    }

    /// The follow action once the current scene has played its configured
    /// bars: `None` before that, or when no bar count or scene is set.
    pub fn check_follow_action(&self, current_tick: u64, ppqn: u32, beats_per_bar: u8)
        -> (r: Option<&FollowAction>)
        requires
            self.wf(),
            ppqn >= 1,
            beats_per_bar >= 1,
        ensures
            match r {
                Some(action) => {
                    &&& self.spec_current() is Some
                    &&& *action == self.spec_scenes()[self.spec_current()->0 as int]
                        .follow_action
                },
                None => true,
            },
    {
        match self.current_scene {
            Some(i) => {
                match self.scenes[i].follow_after_bars {
                    Some(bars) => {
                        proof {
                            vstd::arithmetic::mul::lemma_mul_strictly_positive(
                                ppqn as int, beats_per_bar as int);
                            vstd::arithmetic::mul::lemma_mul_upper_bound(
                                ppqn as int, 0x1_0000_0000, beats_per_bar as int, 256);
                            vstd::arithmetic::mul::lemma_mul_nonnegative(
                                bars as int, ppqn as int * beats_per_bar as int);
                            vstd::arithmetic::mul::lemma_mul_upper_bound(
                                bars as int, 0x1_0000_0000,
                                ppqn as int * beats_per_bar as int, 0x100_0000_0000);
                        }
                        let ticks_per_bar = ppqn as u64 * beats_per_bar as u64;
                        let elapsed = if current_tick >= self.scene_start_tick {
                            current_tick - self.scene_start_tick
                        } else {
                            0
                        };
                        let target: u128 = bars as u128 * ticks_per_bar as u128;
                        if elapsed as u128 >= target {
                            Some(&self.scenes[i].follow_action)
                        } else {
                            None
                        }
                    },
                    None => None,
                }
            },
            None => None,
        }
    }

    /// The pending launch, if any.
    pub fn pending_launch(&self) -> (r: Option<&PendingSceneLaunch>)
        ensures
            match r {
                Some(p) => self.spec_pending() == Some(*p),
                None => self.spec_pending() is None,
            },
    {
        self.pending.as_ref()
    }

    /// Cancel any pending launch.
    pub fn cancel_pending(&mut self)
        requires
            old(self).wf(),
        ensures
            final(self).wf(),
            final(self).spec_pending() is None,
            final(self).spec_scenes() == old(self).spec_scenes(),
            final(self).spec_current() == old(self).spec_current(),
    {
        self.pending = None;
    }

    /// Stop the current scene and drop any pending launch.
    pub fn stop(&mut self)
        requires
            old(self).wf(),
        ensures
            final(self).wf(),
            final(self).spec_current() is None,
            final(self).spec_pending() is None,
            final(self).spec_scenes() == old(self).spec_scenes(),
    {
        self.current_scene = None;
        self.pending = None;
    }
}

} // verus!
