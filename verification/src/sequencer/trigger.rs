//! Pattern triggering with quantization and follow actions.
//!
//! Provides instant and quantized triggering of clips and patterns,
//! with a queue system and follow actions.

use std::collections::VecDeque;

use vstd::prelude::*;

use crate::sequencer::SequencerTiming;

verus! {

/// Quantization mode for triggers
#[derive(Debug, Clone, Copy, PartialEq, Eq, Structural)]
pub enum QuantizeMode {
    /// Trigger immediately
    Immediate,
    /// Quantize to next tick
    Tick,
    /// Quantize to next beat
    Beat,
    /// Quantize to next bar
    Bar,
    /// Quantize to next N beats
    Beats(u8),
    /// Quantize to next N bars
    Bars(u8),
    /// Quantize to next phrase (typically 4 or 8 bars)
    Phrase,
}

impl QuantizeMode {
    /// Ticks until the trigger fires: zero for Immediate, one for Tick,
    /// the gap to the next beat or bar boundary (zero exactly on one),
    /// the gap to the next beat or bar plus whole extra beats or bars for
    /// Beats(n) and Bars(n), and the gap to the next phrase boundary for
    /// Phrase, a phrase being `phrase_bars` bars (at least one).
    pub open spec fn spec_ticks_until_with(self, timing: SequencerTiming,
        phrase_bars: int) -> int {
        let ticks_per_beat = timing.ppqn as int;
        let ticks_per_bar = timing.ppqn as int * timing.beats_per_bar as int;
        match self {
            QuantizeMode::Immediate => 0,
            QuantizeMode::Tick => 1,
            QuantizeMode::Beat => timing.spec_ticks_to_next_beat(),
            QuantizeMode::Bar => timing.spec_ticks_to_next_bar(),
            QuantizeMode::Beats(n) => timing.spec_ticks_to_next_beat()
                + (if n >= 1 { n - 1 } else { 0int }) * ticks_per_beat,
            QuantizeMode::Bars(n) => timing.spec_ticks_to_next_bar()
                + (if n >= 1 { n - 1 } else { 0int }) * ticks_per_bar,
            QuantizeMode::Phrase => {
                let bars = if phrase_bars < 1 { 1int } else { phrase_bars };
                let phrase_length = ticks_per_bar * bars;
                let into_phrase = timing.position_ticks as int % phrase_length;
                if into_phrase == 0 {
                    0
                } else {
                    phrase_length - into_phrase
                }
            },
        }
    }

    /// `spec_ticks_until_with` at the default phrase length of four bars.
    pub open spec fn spec_ticks_until(self, timing: SequencerTiming) -> int {
        self.spec_ticks_until_with(timing, 4)
    }

    /// Calculate ticks until trigger based on current timing. On a bar
    /// boundary, `Bar` yields zero.
    pub fn ticks_until(&self, timing: &SequencerTiming) -> (r: u64)
        requires
            timing.wf(),
        ensures
            r == self.spec_ticks_until(*timing),
            *self == QuantizeMode::Bar && timing.position_ticks as int
                % (timing.ppqn as int * timing.beats_per_bar as int) == 0 ==> r == 0,
    {
        self.ticks_until_with(timing, 4)
    }

    /// `ticks_until` with a configured phrase length in bars; zero is
    /// lifted to one.
    pub fn ticks_until_with(&self, timing: &SequencerTiming, phrase_bars: u8) -> (r: u64)
        requires
            timing.wf(),
        ensures
            r == self.spec_ticks_until_with(*timing, phrase_bars as int),
    {
        match self {
            QuantizeMode::Immediate => 0,
            QuantizeMode::Tick => 1,
            QuantizeMode::Beat => timing.ticks_to_next_beat(),
            QuantizeMode::Bar => timing.ticks_to_next_bar(),
            QuantizeMode::Beats(n) => {
                let ticks_per_beat = timing.ticks_per_beat();
                let to_next_beat = timing.ticks_to_next_beat();
                let extra = if *n >= 1 { (*n - 1) as u64 } else { 0 };
                proof {
                    vstd::arithmetic::mul::lemma_mul_upper_bound(
                        extra as int, 256, ticks_per_beat as int, 0x1_0000_0000);
                    vstd::arithmetic::mul::lemma_mul_nonnegative(
                        extra as int, ticks_per_beat as int);
                }
                to_next_beat + extra * ticks_per_beat
            },
            QuantizeMode::Bars(n) => {
                let ticks_per_bar = timing.ticks_per_bar();
                let to_next_bar = timing.ticks_to_next_bar();
                let extra = if *n >= 1 { (*n - 1) as u64 } else { 0 };
                proof {
                    vstd::arithmetic::mul::lemma_mul_upper_bound(
                        extra as int, 256, ticks_per_bar as int, 0x100_0000_0000);
                    vstd::arithmetic::mul::lemma_mul_nonnegative(
                        extra as int, ticks_per_bar as int);
                }
                to_next_bar + extra * ticks_per_bar
            },
            QuantizeMode::Phrase => {
                let bars: u64 = if phrase_bars == 0 { 1 } else { phrase_bars as u64 };
                let ticks_per_bar = timing.ticks_per_bar();
                proof {
                    vstd::arithmetic::mul::lemma_mul_upper_bound(
                        bars as int, 256, ticks_per_bar as int, 0x100_0000_0000);
                    vstd::arithmetic::mul::lemma_mul_strictly_positive(
                        bars as int, ticks_per_bar as int);
                }
                let phrase_length = ticks_per_bar * bars;
                let into_phrase = timing.position_ticks % phrase_length;
                if into_phrase == 0 {
                    0
                } else {
                    phrase_length - into_phrase
                }
            },
        }
    }
}

/// Follow action - what to do when a clip finishes. Probabilities are in
/// thousandths.
#[derive(Debug, PartialEq)]
pub enum FollowAction {
    /// Do nothing, let clip handle looping
    NoAction,
    /// Stop the clip
    Stop,
    /// Play the same clip again
    Again,
    /// Play the next clip in sequence
    Next,
    /// Play the previous clip
    Previous,
    /// Play the first clip
    First,
    /// Play the last clip
    Last,
    /// Play a random clip
    Random,
    /// Play a specific clip by index
    Specific(usize),
    /// Choose between two actions with probability (in thousandths)
    Either {
        action_a: Box<FollowAction>,
        action_b: Box<FollowAction>,
        probability_a_permille: u16,
    },
}

impl FollowAction {
    /// The resolutions a follow action admits for a clip grid of `total`
    /// clips from clip `current`: `None`/`Stop` yield no clip, the
    /// deterministic actions yield their index, `Random` yields any index
    /// below `total`, and `Either` yields whatever one of its branches
    /// yields.
    pub open spec fn spec_may_resolve(self, current: int, total: int, r: Option<usize>) -> bool
        decreases self,
    {
        match self {
            FollowAction::NoAction => r is None,
            FollowAction::Stop => r is None,
            FollowAction::Again => r == Some(current as usize),
            FollowAction::Next => r == Some(
                (if current + 1 < total { current + 1 } else { 0int }) as usize),
            FollowAction::Previous => r == Some(
                (if current > 0 { current - 1 } else if total > 0 { total - 1 } else { 0int })
                    as usize),
            FollowAction::First => r == Some(0usize),
            FollowAction::Last => r == Some(
                (if total > 0 { total - 1 } else { 0int }) as usize),
            FollowAction::Random => if total > 0 {
                r matches Some(i) && i < total
            } else {
                r is None
            },
            FollowAction::Specific(idx) => if idx < total {
                r == Some(idx)
            } else {
                r is None
            },
            FollowAction::Either { action_a, action_b, .. } =>
                action_a.spec_may_resolve(current, total, r)
                    || action_b.spec_may_resolve(current, total, r),
        }
    }

    /// Create an either action; the probability is clamped to 0..=1000.
    pub fn either(a: FollowAction, b: FollowAction, prob_a_permille: u16) -> (r: Self)
        ensures
            r matches FollowAction::Either { action_a, action_b, probability_a_permille } && {
                &&& *action_a == a
                &&& *action_b == b
                &&& probability_a_permille == crate::spec_clamp(prob_a_permille as int, 0, 1000)
            },
    {
        FollowAction::Either {
            action_a: Box::new(a),
            action_b: Box::new(b),
            probability_a_permille: crate::clamp_u16(prob_a_permille, 0, 1000),
        }
    }

    /// Resolve the action to a concrete clip index; random choices draw
    /// from `rng`. The result is one the action admits.
    pub fn resolve(&self, current: usize, total: usize, rng: &mut rand::rngs::StdRng)
        -> (r: Option<usize>)
        ensures
            self.spec_may_resolve(current as int, total as int, r),
        decreases *self,
    {
        match self {
            FollowAction::NoAction => None,
            FollowAction::Stop => None,
            FollowAction::Again => Some(current),
            FollowAction::Next => {
                if total > 0 && current < total - 1 {
                    Some(current + 1)
                } else {
                    Some(0)  // Wrap to first
                }
            },
            FollowAction::Previous => {
                if current > 0 {
                    Some(current - 1)
                } else if total > 0 {
                    Some(total - 1)  // Wrap to last
                } else {
                    Some(0)
                }
            },
            FollowAction::First => Some(0),
            FollowAction::Last => {
                if total > 0 {
                    Some(total - 1)
                } else {
                    Some(0)
                }
            },
            FollowAction::Random => {
                if total > 0 {
                    let i = crate::rng::rand_below(rng, total as u64);
                    Some(i as usize)
                } else {
                    None
                }
            },
            FollowAction::Specific(idx) => {
                if *idx < total {
                    Some(*idx)
                } else {
                    None
                }
            },
            FollowAction::Either { action_a, action_b, probability_a_permille } => {
                let roll = crate::rng::rand_permille(rng);
                if roll < *probability_a_permille {
                    action_a.resolve(current, total, rng)
                } else {
                    action_b.resolve(current, total, rng)
                }
            },
        }
    }
}

impl Clone for FollowAction {
    /// Clone the action; the copy equals the original.
    fn clone(&self) -> (r: Self)
        ensures
            r == *self,
        decreases *self,
    {
        match self {
            FollowAction::NoAction => FollowAction::NoAction,
            FollowAction::Stop => FollowAction::Stop,
            FollowAction::Again => FollowAction::Again,
            FollowAction::Next => FollowAction::Next,
            FollowAction::Previous => FollowAction::Previous,
            FollowAction::First => FollowAction::First,
            FollowAction::Last => FollowAction::Last,
            FollowAction::Random => FollowAction::Random,
            FollowAction::Specific(idx) => FollowAction::Specific(*idx),
            FollowAction::Either { action_a, action_b, probability_a_permille } => {
                FollowAction::Either {
                    action_a: Box::new((**action_a).clone()),
                    action_b: Box::new((**action_b).clone()),
                    probability_a_permille: *probability_a_permille,
                }
            },
        }
    }
}

/// A queued trigger action
#[derive(Debug, PartialEq)]
pub struct QueuedTrigger {
    /// Track index
    pub track_index: usize,
    /// Clip index (None = stop)
    pub clip_index: Option<usize>,
    /// Tick when trigger should fire
    pub trigger_tick: u64,
    /// Follow action after clip completes
    pub follow_action: FollowAction,
}

impl Clone for QueuedTrigger {
    /// Clone the trigger; the copy equals the original.
    fn clone(&self) -> (r: Self)
        ensures
            r == *self,
    {
        QueuedTrigger {
            track_index: self.track_index,
            clip_index: self.clip_index,
            trigger_tick: self.trigger_tick,
            follow_action: self.follow_action.clone(),
        }
    }
}

impl QueuedTrigger {
    /// Create a new queued trigger
    pub fn new(track_index: usize, clip_index: Option<usize>, trigger_tick: u64) -> (r: Self)
        ensures
            r == (QueuedTrigger {
                track_index,
                clip_index,
                trigger_tick,
                follow_action: FollowAction::NoAction,
            }),
    {
        Self { track_index, clip_index, trigger_tick, follow_action: FollowAction::NoAction }
    }

    /// Set follow action
    pub fn with_follow_action(self, action: FollowAction) -> (r: Self)
        ensures
            r == (QueuedTrigger { follow_action: action, ..self }),
    {
        QueuedTrigger { follow_action: action, ..self }
    }
}

/// Triggers in nondecreasing `trigger_tick` order.
pub open spec fn triggers_sorted(q: Seq<QueuedTrigger>) -> bool {
    forall|i: int, j: int| 0 <= i < j < q.len()
        ==> #[trigger] q[i].trigger_tick <= #[trigger] q[j].trigger_tick
}

/// Queue of pending triggers, kept in firing order.
pub struct TriggerQueue {
    /// Pending triggers
    queue: VecDeque<QueuedTrigger>,
    /// Default quantization mode
    default_quantize: QuantizeMode,
    /// Phrase length in bars (for phrase quantization)
    phrase_bars: u8,
}

impl TriggerQueue {
    /// The pending triggers, in firing order.
    pub closed spec fn spec_queue(self) -> Seq<QueuedTrigger> {
        self.queue@
    }

    /// The default quantization mode.
    pub closed spec fn spec_default_quantize(self) -> QuantizeMode {
        self.default_quantize
    }

    /// The configured phrase length in bars.
    pub closed spec fn spec_phrase_bars(self) -> int {
        self.phrase_bars as int
    }

    /// Triggers stay sorted by their firing tick.
    pub open spec fn wf(self) -> bool {
        triggers_sorted(self.spec_queue())
    }

    /// Create a new trigger queue
    pub fn new() -> (r: Self)
        ensures
            r.wf(),
            r.spec_queue().len() == 0,
            r.spec_default_quantize() == QuantizeMode::Bar,
            r.spec_phrase_bars() == 4,
    {
        Self {
            queue: VecDeque::new(),
            default_quantize: QuantizeMode::Bar,
            phrase_bars: 4,
        }
    }

    /// Set default quantization mode
    pub fn set_default_quantize(&mut self, mode: QuantizeMode)
        ensures
            final(self).spec_default_quantize() == mode,
            final(self).spec_queue() == old(self).spec_queue(),
            final(self).spec_phrase_bars() == old(self).spec_phrase_bars(),
    {
        self.default_quantize = mode;
    }

    /// Get default quantization mode
    pub fn default_quantize(&self) -> (r: QuantizeMode)
        ensures
            r == self.spec_default_quantize(),
    {
        self.default_quantize
    }

    /// Set phrase length in bars; zero is lifted to one.
    pub fn set_phrase_bars(&mut self, bars: u8)
        ensures
            final(self).spec_phrase_bars() == if bars == 0 { 1int } else { bars as int },
            final(self).spec_queue() == old(self).spec_queue(),
    {
        self.phrase_bars = if bars == 0 { 1 } else { bars };
    }

    /// Queue a trigger with default quantization
    pub fn queue(&mut self, track_index: usize, clip_index: Option<usize>,
        timing: &SequencerTiming)
        requires
            old(self).wf(),
            timing.wf(),
            timing.position_ticks + old(self).spec_default_quantize()
                .spec_ticks_until_with(*timing, old(self).spec_phrase_bars()) <= u64::MAX,
        ensures
            final(self).wf(),
            final(self).spec_queue().to_multiset() == old(self).spec_queue().to_multiset()
                .insert(QueuedTrigger {
                    track_index,
                    clip_index,
                    trigger_tick: (timing.position_ticks + old(self).spec_default_quantize()
                        .spec_ticks_until_with(*timing, old(self).spec_phrase_bars())) as u64,
                    follow_action: FollowAction::NoAction,
                }),
            final(self).spec_queue().len() == old(self).spec_queue().len() + 1,
            final(self).spec_default_quantize() == old(self).spec_default_quantize(),
            final(self).spec_phrase_bars() == old(self).spec_phrase_bars(),
    {
        let q = self.default_quantize;
        self.queue_with_quantize(track_index, clip_index, timing, q);
    }

    /// Queue a trigger with specific quantization: it fires at the current
    /// position plus the mode's gap.
    pub fn queue_with_quantize(&mut self, track_index: usize, clip_index: Option<usize>,
        timing: &SequencerTiming, quantize: QuantizeMode)
        requires
            old(self).wf(),
            timing.wf(),
            timing.position_ticks + quantize.spec_ticks_until_with(
                *timing, old(self).spec_phrase_bars()) <= u64::MAX,
        ensures
            final(self).wf(),
            final(self).spec_queue().to_multiset() == old(self).spec_queue().to_multiset()
                .insert(QueuedTrigger {
                    track_index,
                    clip_index,
                    trigger_tick: (timing.position_ticks + quantize.spec_ticks_until_with(
                        *timing, old(self).spec_phrase_bars())) as u64,
                    follow_action: FollowAction::NoAction,
                }),
            final(self).spec_queue().len() == old(self).spec_queue().len() + 1,
            final(self).spec_default_quantize() == old(self).spec_default_quantize(),
            final(self).spec_phrase_bars() == old(self).spec_phrase_bars(),
    {
        let trigger_tick = timing.position_ticks
            + quantize.ticks_until_with(timing, self.phrase_bars);
        let trigger = QueuedTrigger::new(track_index, clip_index, trigger_tick);
        self.insert_sorted(trigger);
    }

    /// Queue an immediate trigger
    pub fn queue_immediate(&mut self, track_index: usize, clip_index: Option<usize>,
        timing: &SequencerTiming)
        requires
            old(self).wf(),
            timing.wf(),
        ensures
            final(self).wf(),
            final(self).spec_queue().to_multiset() == old(self).spec_queue().to_multiset()
                .insert(QueuedTrigger {
                    track_index,
                    clip_index,
                    trigger_tick: timing.position_ticks,
                    follow_action: FollowAction::NoAction,
                }),
            final(self).spec_queue().len() == old(self).spec_queue().len() + 1,
            final(self).spec_default_quantize() == old(self).spec_default_quantize(),
            final(self).spec_phrase_bars() == old(self).spec_phrase_bars(),
    {
        self.queue_with_quantize(track_index, clip_index, timing, QuantizeMode::Immediate);
    }

    /// Queue a trigger with the default quantization and a follow action.
    pub fn queue_with_follow(&mut self, track_index: usize, clip_index: Option<usize>,
        timing: &SequencerTiming, follow_action: FollowAction)
        requires
            old(self).wf(),
            timing.wf(),
            timing.position_ticks + old(self).spec_default_quantize()
                .spec_ticks_until_with(*timing, old(self).spec_phrase_bars()) <= u64::MAX,
        ensures
            final(self).wf(),
            final(self).spec_queue().to_multiset() == old(self).spec_queue().to_multiset()
                .insert(QueuedTrigger {
                    track_index,
                    clip_index,
                    trigger_tick: (timing.position_ticks + old(self).spec_default_quantize()
                        .spec_ticks_until_with(*timing, old(self).spec_phrase_bars())) as u64,
                    follow_action,
                }),
            final(self).spec_queue().len() == old(self).spec_queue().len() + 1,
            final(self).spec_default_quantize() == old(self).spec_default_quantize(),
            final(self).spec_phrase_bars() == old(self).spec_phrase_bars(),
    {
        let q = self.default_quantize;
        let trigger_tick = timing.position_ticks + q.ticks_until_with(timing, self.phrase_bars);
        let trigger = QueuedTrigger::new(track_index, clip_index, trigger_tick)
            .with_follow_action(follow_action);
        self.insert_sorted(trigger);
    }

    /// Insert a trigger keeping the queue ordered by firing tick, after
    /// any triggers firing at the same tick.
    fn insert_sorted(&mut self, trigger: QueuedTrigger)
        requires
            old(self).wf(),
        ensures
            final(self).wf(),
            final(self).spec_queue().to_multiset()
                == old(self).spec_queue().to_multiset().insert(trigger),
            final(self).spec_queue().len() == old(self).spec_queue().len() + 1,
            final(self).spec_default_quantize() == old(self).spec_default_quantize(),
            final(self).spec_phrase_bars() == old(self).spec_phrase_bars(),
    {
        // Find insertion point to maintain sorted order
        let n = self.queue.len();
        let mut pos: usize = 0;
        while pos < n && self.queue[pos].trigger_tick <= trigger.trigger_tick
            invariant
                0 <= pos <= n,
                n == self.queue@.len(),
                self.queue@ == old(self).spec_queue(),
                forall|j: int| 0 <= j < pos
                    ==> #[trigger] self.queue@[j].trigger_tick <= trigger.trigger_tick,
            decreases n - pos,
        {
            pos = pos + 1;
        }
        let ghost before = self.queue@;
        self.queue.insert(pos, trigger);
        proof {
            assert forall|i: int, j: int| 0 <= i < j < self.queue@.len()
                implies #[trigger] self.queue@[i].trigger_tick
                    <= #[trigger] self.queue@[j].trigger_tick by {
                if j < pos {
                    assert(self.queue@[i] == before[i] && self.queue@[j] == before[j]);
                } else if i > pos {
                    assert(self.queue@[i] == before[i - 1] && self.queue@[j] == before[j - 1]);
                } else if i < pos && j == pos {
                    assert(self.queue@[i] == before[i]);
                } else if i == pos {
                    assert(self.queue@[j] == before[j - 1]);
                    assert(trigger.trigger_tick < before[pos as int].trigger_tick
                        || pos == before.len());
                } else {
                    assert(self.queue@[i] == before[i] && self.queue@[j] == before[j - 1]);
                }
            }
            lemma_trigger_insert_to_multiset(before, pos as int, trigger);
        }
    }

    /// Pop and return the triggers due at or before the given tick, in
    /// firing order.
    #[verifier::loop_isolation(true)]
    pub fn poll(&mut self, current_tick: u64) -> (r: Vec<QueuedTrigger>)
        requires
            old(self).wf(),
        ensures
            final(self).wf(),
            triggers_sorted(r@),
            r@ + final(self).spec_queue() == old(self).spec_queue(),
            forall|i: int| 0 <= i < r@.len() ==> #[trigger] r@[i].trigger_tick <= current_tick,
            final(self).spec_queue().len() > 0
                ==> final(self).spec_queue()[0].trigger_tick > current_tick,
            final(self).spec_default_quantize() == old(self).spec_default_quantize(),
    {
        let mut triggered: Vec<QueuedTrigger> = Vec::new();

        loop
            invariant
                self.wf(),
                triggers_sorted(old(self).spec_queue()),
                triggers_sorted(triggered@),
                triggered@ + self.spec_queue() == old(self).spec_queue(),
                forall|i: int| 0 <= i < triggered@.len()
                    ==> #[trigger] triggered@[i].trigger_tick <= current_tick,
                self.default_quantize == old(self).spec_default_quantize(),
                self.phrase_bars == old(self).spec_phrase_bars(),
            ensures
                self.spec_queue().len() == 0
                    || self.spec_queue()[0].trigger_tick > current_tick,
            decreases self.spec_queue().len(),
        {
            if self.queue.len() == 0 {
                break;
            }
            let due = self.queue[0].trigger_tick <= current_tick;
            if !due {
                break;
            }
            let ghost before_q = self.queue@;
            let ghost before_t = triggered@;
            match self.queue.pop_front() {
                Some(t) => {
                    triggered.push(t);
                    proof {
                        assert(before_t.push(t) + before_q.drop_first() =~= before_t + before_q);
                        let all = old(self).spec_queue();
                        assert forall|a: int, b: int| 0 <= a < b < triggered@.len()
                            implies #[trigger] triggered@[a].trigger_tick
                                <= #[trigger] triggered@[b].trigger_tick by {
                            assert(triggered@[a] == (triggered@ + self.spec_queue())[a]);
                            assert(triggered@[b] == (triggered@ + self.spec_queue())[b]);
                            assert(all[a].trigger_tick <= all[b].trigger_tick);
                        }
                    }
                },
                None => {
                    break;
                },
            }
        }

        triggered
    }

    /// Peek at next trigger without removing
    pub fn peek(&self) -> (r: Option<&QueuedTrigger>)
        ensures
            match r {
                Some(t) => self.spec_queue().len() > 0 && *t == self.spec_queue()[0],
                None => self.spec_queue().len() == 0,
            },
    {
        if self.queue.len() > 0 {
            Some(&self.queue[0])
        } else {
            None
        }
    }

    /// Get all pending triggers for a track, in firing order.
    pub fn pending_for_track(&self, track_index: usize) -> (r: Vec<QueuedTrigger>)
        ensures
            r@ == self.spec_queue().filter(|t: QueuedTrigger| t.track_index == track_index),
    {
        let n = self.queue.len();
        let mut r: Vec<QueuedTrigger> = Vec::new();
        let mut i: usize = 0;
        proof {
            reveal(Seq::filter);
            assert(self.spec_queue().take(0) =~= Seq::<QueuedTrigger>::empty());
        }
        while i < n
            invariant
                0 <= i <= n,
                n == self.spec_queue().len(),
                r@ == self.spec_queue().take(i as int)
                    .filter(|t: QueuedTrigger| t.track_index == track_index),
            decreases n - i,
        {
            if self.queue[i].track_index == track_index {
                r.push(self.queue[i].clone());
            }
            proof {
                let pre = self.spec_queue().take(i as int);
                assert(self.spec_queue().take(i as int + 1)
                    =~= pre.push(self.spec_queue()[i as int]));
                pre.lemma_filter_push(self.spec_queue()[i as int],
                    |t: QueuedTrigger| t.track_index == track_index);
            }
            i = i + 1;
        }
        proof {
            assert(self.spec_queue().take(n as int) =~= self.spec_queue());
        }
        r
    }

    /// Cancel all pending triggers for a track
    pub fn cancel_for_track(&mut self, track_index: usize)
        requires
            old(self).wf(),
        ensures
            final(self).wf(),
            final(self).spec_queue() == old(self).spec_queue()
                .filter(|t: QueuedTrigger| t.track_index != track_index),
            final(self).spec_default_quantize() == old(self).spec_default_quantize(),
    {
        let n = self.queue.len();
        let mut kept: VecDeque<QueuedTrigger> = VecDeque::new();
        let mut i: usize = 0;
        proof {
            reveal(Seq::filter);
            assert(old(self).spec_queue().take(0) =~= Seq::<QueuedTrigger>::empty());
        }
        while i < n
            invariant
                0 <= i <= n,
                n == self.queue@.len(),
                self.queue@ == old(self).spec_queue(),
                kept@ == self.queue@.take(i as int)
                    .filter(|t: QueuedTrigger| t.track_index != track_index),
            decreases n - i,
        {
            let keep = self.queue[i].track_index != track_index;
            if keep {
                kept.push_back(self.queue[i].clone());
            }
            proof {
                let pre = self.queue@.take(i as int);
                assert(self.queue@.take(i as int + 1) =~= pre.push(self.queue@[i as int]));
                pre.lemma_filter_push(self.queue@[i as int],
                    |t: QueuedTrigger| t.track_index != track_index);
            }
            i = i + 1;
        }
        proof {
            assert(self.queue@.take(n as int) =~= self.queue@);
            lemma_sorted_triggers_filter(self.queue@,
                |t: QueuedTrigger| t.track_index != track_index);
        }
        self.queue = kept;
    }

    /// Cancel all pending triggers
    pub fn clear(&mut self)
        ensures
            final(self).wf(),
            final(self).spec_queue().len() == 0,
            final(self).spec_default_quantize() == old(self).spec_default_quantize(),
    {
        self.queue.clear();
    }

    /// Get number of pending triggers
    pub fn len(&self) -> (r: usize)
        ensures
            r == self.spec_queue().len(),
    {
        self.queue.len()
    }

    /// Check if queue is empty
    pub fn is_empty(&self) -> (r: bool)
        ensures
            r == (self.spec_queue().len() == 0),
    {
        self.queue.len() == 0
    }
}

/// Inserting anywhere in a trigger sequence adds one copy to its multiset.
proof fn lemma_trigger_insert_to_multiset(s: Seq<QueuedTrigger>, i: int, a: QueuedTrigger)
    requires
        0 <= i <= s.len(),
    ensures
        s.insert(i, a).to_multiset() == s.to_multiset().insert(a),
{
    broadcast use vstd::seq_lib::group_to_multiset_ensures;

    let t = s.insert(i, a);
    assert(t[i] == a);
    assert(t.remove(i) =~= s);
    assert(t.remove(i).to_multiset() =~= t.to_multiset().remove(a));
    assert(t.to_multiset().contains(a)) by {
        assert(t.contains(a));
    }
    assert(t.to_multiset() =~= s.to_multiset().insert(a));
}

/// A filtered subsequence of a tick-sorted trigger queue stays sorted.
proof fn lemma_sorted_triggers_filter(q: Seq<QueuedTrigger>, pred: spec_fn(QueuedTrigger) -> bool)
    requires
        triggers_sorted(q),
    ensures
        triggers_sorted(q.filter(pred)),
    decreases q.len(),
{
    reveal(Seq::filter);
    if q.len() > 0 {
        let prefix = q.drop_last();
        assert(triggers_sorted(prefix)) by {
            assert forall|i: int, j: int| 0 <= i < j < prefix.len()
                implies #[trigger] prefix[i].trigger_tick
                    <= #[trigger] prefix[j].trigger_tick by {
                assert(q[i].trigger_tick <= q[j].trigger_tick);
            }
        }
        lemma_sorted_triggers_filter(prefix, pred);
        if pred(q.last()) {
            let f = prefix.filter(pred);
            assert forall|i: int, j: int| 0 <= i < j < f.push(q.last()).len()
                implies #[trigger] f.push(q.last())[i].trigger_tick
                    <= #[trigger] f.push(q.last())[j].trigger_tick by {
                if j < f.len() {
                } else {
                    broadcast use vstd::seq_lib::group_seq_properties;
                    assert(f.push(q.last())[j] == q.last());
                    assert(prefix.contains(f[i])) by {
                        prefix.lemma_filter_contains_rev(pred, f[i]);
                    }
                    let k = choose|k: int| 0 <= k < prefix.len() && prefix[k] == f[i];
                    assert(q[k].trigger_tick <= q.last().trigger_tick);
                }
            }
        }
    }
}

/// Scene - a collection of clip states for all tracks
#[derive(Debug)]
pub struct Scene {
    /// Scene name
    pub name: String,
    /// Clip indices for each track (None = stop track)
    pub clips: Vec<Option<usize>>,
    /// Follow action for scene
    pub follow_action: FollowAction,
    /// Quantization for scene trigger
    pub quantize: QuantizeMode,
}

impl Scene {
    /// Create a new scene with one empty slot per track.
    pub fn new(name: String, track_count: usize) -> (r: Self)
        ensures
            r.name@ == name@,
            r.clips@.len() == track_count,
            forall|i: int| 0 <= i < track_count ==> r.clips@[i] is None,
            r.follow_action == FollowAction::NoAction,
            r.quantize == QuantizeMode::Bar,
    {
        let mut clips: Vec<Option<usize>> = Vec::new();
        let mut i: usize = 0;
        while i < track_count
            invariant
                0 <= i <= track_count,
                clips@.len() == i,
                forall|j: int| 0 <= j < i ==> clips@[j] is None,
            decreases track_count - i,
        {
            clips.push(None);
            i = i + 1;
        }
        Self {
            name,
            clips,
            follow_action: FollowAction::NoAction,
            quantize: QuantizeMode::Bar,
        }
    }

    /// Set clip for a track; an index beyond the scene is ignored.
    pub fn set_clip(&mut self, track: usize, clip: Option<usize>)
        ensures
            track < old(self).clips@.len() ==> final(self).clips@
                == old(self).clips@.update(track as int, clip),
            track >= old(self).clips@.len() ==> final(self).clips@ == old(self).clips@,
            final(self).name@ == old(self).name@,
            final(self).quantize == old(self).quantize,
    {
        if track < self.clips.len() {
            self.clips.set(track, clip);
        }
    }

    /// Get clip for a track
    pub fn clip(&self, track: usize) -> (r: Option<usize>)
        ensures
            r == if track < self.clips@.len() {
                self.clips@[track as int]
            } else {
                Option::<usize>::None
            },
    {
        if track < self.clips.len() {
            self.clips[track]
        } else {
            None
        }
    }

    /// Queue one trigger per track of this scene, each at the scene's
    /// quantization boundary.
    pub fn queue_all(&self, queue: &mut TriggerQueue, timing: &SequencerTiming)
        requires
            old(queue).wf(),
            timing.wf(),
            timing.position_ticks + self.quantize.spec_ticks_until_with(
                *timing, old(queue).spec_phrase_bars()) <= u64::MAX,
        ensures
            final(queue).wf(),
            final(queue).spec_phrase_bars() == old(queue).spec_phrase_bars(),
            final(queue).spec_queue().len()
                == old(queue).spec_queue().len() + self.clips@.len(),
            forall|t: int| 0 <= t < self.clips@.len()
                ==> final(queue).spec_queue().to_multiset().contains(QueuedTrigger {
                    track_index: t as usize,
                    clip_index: self.clips@[t],
                    trigger_tick: (timing.position_ticks + self.quantize
                        .spec_ticks_until_with(*timing, old(queue).spec_phrase_bars())) as u64,
                    follow_action: FollowAction::NoAction,
                }),
    {
        let n = self.clips.len();
        let mut track_index: usize = 0;
        while track_index < n
            invariant
                0 <= track_index <= n,
                n == self.clips@.len(),
                queue.wf(),
                timing.wf(),
                timing.position_ticks + self.quantize.spec_ticks_until_with(
                    *timing, old(queue).spec_phrase_bars()) <= u64::MAX,
                queue.spec_phrase_bars() == old(queue).spec_phrase_bars(),
                queue.spec_queue().len() == old(queue).spec_queue().len() + track_index,
                forall|t: int| 0 <= t < track_index
                    ==> queue.spec_queue().to_multiset().contains(QueuedTrigger {
                        track_index: t as usize,
                        clip_index: self.clips@[t],
                        trigger_tick: (timing.position_ticks + self.quantize
                            .spec_ticks_until_with(*timing, old(queue).spec_phrase_bars())) as u64,
                        follow_action: FollowAction::NoAction,
                    }),
            decreases n - track_index,
        {
            let clip = self.clips[track_index];
            let ghost qbefore = queue.spec_queue();
            queue.queue_with_quantize(track_index, clip, timing, self.quantize);
            proof {
                broadcast use vstd::seq_lib::group_to_multiset_ensures;
                let fresh = QueuedTrigger {
                    track_index,
                    clip_index: clip,
                    trigger_tick: (timing.position_ticks + self.quantize
                        .spec_ticks_until_with(*timing, old(queue).spec_phrase_bars())) as u64,
                    follow_action: FollowAction::NoAction,
                };
                assert(queue.spec_queue().to_multiset().contains(fresh));
                assert forall|t: int| 0 <= t < track_index + 1
                    implies queue.spec_queue().to_multiset().contains(QueuedTrigger {
                        track_index: t as usize,
                        clip_index: self.clips@[t],
                        trigger_tick: (timing.position_ticks + self.quantize
                            .spec_ticks_until_with(*timing, old(queue).spec_phrase_bars())) as u64,
                        follow_action: FollowAction::NoAction,
                    }) by {
                    if t < track_index {
                        let tr = QueuedTrigger {
                            track_index: t as usize,
                            clip_index: self.clips@[t],
                            trigger_tick: (timing.position_ticks + self.quantize
                                .spec_ticks_until_with(*timing, old(queue).spec_phrase_bars())) as u64,
                            follow_action: FollowAction::NoAction,
                        };
                        assert(qbefore.to_multiset().contains(tr));
                        assert(queue.spec_queue().to_multiset().count(tr)
                            == qbefore.to_multiset().insert(fresh).count(tr));
                    }
                }
            }
            track_index = track_index + 1;
        }
    }
}

/// Manager for scenes
pub struct SceneManager {
    scenes: Vec<Scene>,
    current_scene: Option<usize>,
}

impl SceneManager {
    /// The scenes held, in order.
    pub closed spec fn spec_scenes(self) -> Seq<Scene> {
        self.scenes@
    }

    /// The index of the scene last triggered, if any.
    pub closed spec fn spec_current(self) -> Option<usize> {
        self.current_scene
    }

    /// Create a new scene manager
    pub fn new() -> (r: Self)
        ensures
            r.spec_scenes().len() == 0,
            r.spec_current() is None,
    {
        Self { scenes: Vec::new(), current_scene: None }
    }

    /// Add a scene, returning its index.
    pub fn add_scene(&mut self, scene: Scene) -> (r: usize)
        ensures
            final(self).spec_scenes() == old(self).spec_scenes().push(scene),
            r == old(self).spec_scenes().len(),
            final(self).spec_current() == old(self).spec_current(),
    {
        self.scenes.push(scene);
        self.scenes.len() - 1
    }

    /// Get a scene by index
    pub fn scene(&self, index: usize) -> (r: Option<&Scene>)
        ensures
            match r {
                Some(s) => index < self.spec_scenes().len() && *s == self.spec_scenes()[index as int],
                None => index >= self.spec_scenes().len(),
            },
    {
        if index < self.scenes.len() {
            Some(&self.scenes[index])
        } else {
            None
        }
    }

    /// Get number of scenes
    pub fn scene_count(&self) -> (r: usize)
        ensures
            r == self.spec_scenes().len(),
    {
        self.scenes.len()
    }

    /// Get current scene index
    pub fn current_scene(&self) -> (r: Option<usize>)
        ensures
            r == self.spec_current(),
    {
        self.current_scene
    }

    /// Trigger a scene: queue its clip changes and remember it as current.
    /// An index beyond the scenes is ignored.
    pub fn trigger_scene(&mut self, index: usize, queue: &mut TriggerQueue,
        timing: &SequencerTiming)
        requires
            old(queue).wf(),
            timing.wf(),
            index < old(self).spec_scenes().len() ==> timing.position_ticks
                + old(self).spec_scenes()[index as int].quantize.spec_ticks_until_with(
                    *timing, old(queue).spec_phrase_bars()) <= u64::MAX,
        ensures
            final(queue).wf(),
            final(self).spec_scenes() == old(self).spec_scenes(),
            index < old(self).spec_scenes().len() ==> {
                &&& final(self).spec_current() == Some(index)
                &&& final(queue).spec_queue().len() == old(queue).spec_queue().len()
                    + old(self).spec_scenes()[index as int].clips@.len()
            },
            index >= old(self).spec_scenes().len() ==> {
                &&& *final(self) == *old(self)
                &&& final(queue).spec_queue() == old(queue).spec_queue()
            },
    {
        if index < self.scenes.len() {
            self.scenes[index].queue_all(queue, timing);
            self.current_scene = Some(index);
        }
    }

    /// Trigger the scene after the current one, wrapping at the end; the
    /// first scene when none is current.
    pub fn trigger_next(&mut self, queue: &mut TriggerQueue, timing: &SequencerTiming)
        requires
            old(queue).wf(),
            timing.wf(),
            forall|i: int| 0 <= i < old(self).spec_scenes().len()
                ==> timing.position_ticks + (#[trigger] old(self).spec_scenes()[i]).quantize
                    .spec_ticks_until_with(*timing, old(queue).spec_phrase_bars()) <= u64::MAX,
        ensures
            final(queue).wf(),
            final(self).spec_scenes() == old(self).spec_scenes(),
            old(self).spec_scenes().len() > 0 ==> final(self).spec_current() == Some(
                (match old(self).spec_current() {
                    Some(idx) => if idx + 1 < old(self).spec_scenes().len() {
                        idx + 1
                    } else {
                        0int
                    },
                    None => 0int,
                }) as usize),
    {
        if self.scenes.len() == 0 {
            return;
        }
        let next = match self.current_scene {
            Some(idx) => {
                if idx < self.scenes.len() - 1 {
                    idx + 1
                } else {
                    0
                }
            },
            None => 0,
        };
        self.trigger_scene(next, queue, timing);
    }

    /// Trigger the scene before the current one, wrapping at the start;
    /// the last scene when none is current.
    pub fn trigger_previous(&mut self, queue: &mut TriggerQueue, timing: &SequencerTiming)
        requires
            old(queue).wf(),
            timing.wf(),
            forall|i: int| 0 <= i < old(self).spec_scenes().len()
                ==> timing.position_ticks + (#[trigger] old(self).spec_scenes()[i]).quantize
                    .spec_ticks_until_with(*timing, old(queue).spec_phrase_bars()) <= u64::MAX,
        ensures
            final(queue).wf(),
            final(self).spec_scenes() == old(self).spec_scenes(),
            old(self).spec_scenes().len() > 0 ==> final(self).spec_current() == Some(
                (match old(self).spec_current() {
                    Some(idx) => if idx > 0 && idx - 1 < old(self).spec_scenes().len() {
                        idx - 1
                    } else {
                        old(self).spec_scenes().len() - 1
                    },
                    None => old(self).spec_scenes().len() - 1,
                }) as usize),
    {
        if self.scenes.len() == 0 {
            return;
        }
        let prev = match self.current_scene {
            Some(idx) => {
                if idx > 0 && idx - 1 < self.scenes.len() {
                    idx - 1
                } else {
                    self.scenes.len() - 1
                }
            },
            None => self.scenes.len() - 1,
        };
        self.trigger_scene(prev, queue, timing);
    }
}

} // verus!
