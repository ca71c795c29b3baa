//! Tests for timing, the scheduler, clips and the trigger queue.

use midiseq::generators::GeneratorContext;
use midiseq::music::scale::{Key, Note, ScaleType};
use midiseq::sequencer::clip::{Clip, ClipMode, ClipNote, ClipState};
use midiseq::sequencer::scheduler::{ScheduledEvent, Scheduler};
use midiseq::sequencer::scheduler::MidiMessageType;
use midiseq::sequencer::track::{Track, TrackConfig, TrackManager};
use midiseq::sequencer::trigger::{FollowAction, QuantizeMode, TriggerQueue};
use midiseq::sequencer::SequencerTiming;

fn test_timing() -> SequencerTiming {
    SequencerTiming {
        tempo_milli_bpm: 120_000,
        ppqn: 24,
        position_ticks: 0,
        beats_per_bar: 4,
        beat_unit: 4,
    }
}

#[test]
fn test_timing_defaults() {
    let timing = SequencerTiming::default();
    assert_eq!(timing.tempo_milli_bpm, 120_000);
    assert_eq!(timing.ppqn, 24);
    assert_eq!(timing.beats_per_bar, 4);
    assert_eq!(timing.ticks_per_bar(), 96);
    assert_eq!(timing.ticks_per_beat(), 24);
}

#[test]
fn test_timing_position() {
    let mut timing = SequencerTiming::default();
    timing.position_ticks = 100; // Past one bar (96 ticks)

    assert_eq!(timing.current_bar(), 1);
    assert_eq!(timing.current_beat(), 0);
    assert_eq!(timing.current_tick(), 4);
}

#[test]
fn test_ticks_to_micros() {
    let timing = SequencerTiming::with_tempo(120_000);
    // At 120 BPM, one beat = 500ms = 500,000 micros exactly
    assert_eq!(timing.ticks_to_micros(24), 500_000);
    // At 60 BPM, one beat = 1,000,000 micros exactly
    let slow = SequencerTiming::with_tempo(60_000);
    assert_eq!(slow.ticks_to_micros(24), 1_000_000);
}

#[test]
fn test_ticks_to_next_bar() {
    let mut timing = SequencerTiming::default();

    // At start
    assert_eq!(timing.ticks_to_next_bar(), 0);

    // After 10 ticks
    timing.position_ticks = 10;
    assert_eq!(timing.ticks_to_next_bar(), 86);

    // After 96 ticks (one bar)
    timing.position_ticks = 96;
    assert_eq!(timing.ticks_to_next_bar(), 0);
}

#[test]
fn test_advance_and_reset() {
    let mut timing = SequencerTiming::default();
    timing.advance(50);
    assert_eq!(timing.position_ticks, 50);

    timing.reset();
    assert_eq!(timing.position_ticks, 0);
}

#[test]
fn test_scheduler_creation() {
    let scheduler = Scheduler::new();
    assert!(!scheduler.is_playing());
    assert_eq!(scheduler.queue_len(), 0);
    assert_eq!(scheduler.tempo(), 120_000);
}

#[test]
fn test_schedule_events() {
    let mut scheduler = Scheduler::new();

    scheduler.schedule(ScheduledEvent::note_on(0, 0, 60, 100));
    scheduler.schedule(ScheduledEvent::note_off(24, 0, 60));

    assert_eq!(scheduler.queue_len(), 2);
}

#[test]
fn test_event_ordering() {
    let mut scheduler = Scheduler::new();

    // Schedule events out of order
    scheduler.schedule(ScheduledEvent::note_on(48, 0, 62, 100));
    scheduler.schedule(ScheduledEvent::note_on(0, 0, 60, 100));
    scheduler.schedule(ScheduledEvent::note_on(24, 0, 61, 100));

    scheduler.start(0);
    // Poll with a large window to get all events
    let events = scheduler.poll_window(0, 10_000_000);

    assert_eq!(events.len(), 3);
    // Events should be in time order
    assert_eq!(events[0].data1, 60); // tick 0
    assert_eq!(events[1].data1, 61); // tick 24
    assert_eq!(events[2].data1, 62); // tick 48
}

#[test]
fn test_start_stop() {
    let mut scheduler = Scheduler::new();
    scheduler.schedule(ScheduledEvent::note_on(0, 0, 60, 100));

    assert!(!scheduler.is_playing());

    scheduler.start(0);
    assert!(scheduler.is_playing());

    scheduler.stop();
    assert!(!scheduler.is_playing());
    assert_eq!(scheduler.position_ticks(), 0);
}

#[test]
fn test_tempo_change() {
    // Schedule a note at tick 24 under 60 BPM: exactly 1,000,000 micros.
    let mut scheduler = Scheduler::new();
    scheduler.set_tempo(60_000);
    scheduler.schedule(ScheduledEvent::note_on(24, 0, 60, 100));

    // Change the tempo to 120 BPM: the queued event's wallclock time is
    // re-derived to 500,000 micros while its tick stays 24.
    scheduler.set_tempo(120_000);
    scheduler.start(0);
    let events = scheduler.poll_window(0, 10_000_000);
    assert_eq!(events.len(), 1);
    assert_eq!(events[0].time_ticks, 24);
    assert_eq!(events[0].time_micros, 500_000);
}

#[test]
fn test_midi_bytes() {
    let note_on = ScheduledEvent::note_on(0, 1, 60, 100);
    assert_eq!(note_on.to_midi_bytes(), vec![0x91, 60, 100]);

    let note_off = ScheduledEvent::note_off(0, 2, 64);
    assert_eq!(note_off.to_midi_bytes(), vec![0x82, 64, 0]);

    let cc = ScheduledEvent::control_change(0, 0, 1, 64);
    assert_eq!(cc.to_midi_bytes(), vec![0xB0, 1, 64]);
}

#[test]
fn test_clear_queue() {
    let mut scheduler = Scheduler::new();
    scheduler.schedule(ScheduledEvent::note_on(0, 0, 60, 100));
    scheduler.schedule(ScheduledEvent::note_on(24, 0, 61, 100));

    assert_eq!(scheduler.queue_len(), 2);
    scheduler.clear();
    assert_eq!(scheduler.queue_len(), 0);
}

#[test]
fn test_seek() {
    let mut scheduler = Scheduler::new();

    // Schedule events at ticks 0, 24, 48, 72
    scheduler.schedule(ScheduledEvent::note_on(0, 0, 60, 100));
    scheduler.schedule(ScheduledEvent::note_on(24, 0, 61, 100));
    scheduler.schedule(ScheduledEvent::note_on(48, 0, 62, 100));
    scheduler.schedule(ScheduledEvent::note_on(72, 0, 63, 100));

    // Seek to tick 48
    scheduler.seek(48);

    // Should only have events at tick 48 and 72
    assert_eq!(scheduler.queue_len(), 2);
    assert_eq!(scheduler.position_ticks(), 48);
}

#[test]
fn test_time_signature() {
    let mut scheduler = Scheduler::new();
    scheduler.set_time_signature(3, 4); // 3/4 time

    assert_eq!(scheduler.timing().beats_per_bar, 3);
    assert_eq!(scheduler.timing().ticks_per_bar(), 72); // 3 * 24
}

#[test]
fn test_poll_ordering_nondecreasing() {
    let mut scheduler = Scheduler::new();
    for tick in [96u64, 24, 72, 0, 48, 24] {
        scheduler.schedule(ScheduledEvent::note_on(tick, 0, 60, 100));
    }
    scheduler.start(0);
    let events = scheduler.poll_window(0, 10_000_000);
    assert_eq!(events.len(), 6);
    for pair in events.windows(2) {
        assert!(pair[0].time_micros <= pair[1].time_micros);
    }
}

#[test]
fn test_quantize_immediate() {
    let timing = test_timing();
    assert_eq!(QuantizeMode::Immediate.ticks_until(&timing), 0);
}

#[test]
fn test_quantize_beat() {
    let mut timing = test_timing();
    timing.position_ticks = 10; // 10 ticks into first beat

    let ticks = QuantizeMode::Beat.ticks_until(&timing);
    assert_eq!(ticks, 14); // 24 - 10 = 14 ticks to next beat
}

#[test]
fn test_quantize_bar() {
    let mut timing = test_timing();
    timing.position_ticks = 50; // 50 ticks into first bar

    let ticks = QuantizeMode::Bar.ticks_until(&timing);
    assert_eq!(ticks, 46); // 96 - 50 = 46 ticks to next bar
}

#[test]
fn test_quantize_at_boundary() {
    let timing = test_timing();
    assert_eq!(QuantizeMode::Beat.ticks_until(&timing), 0);
    assert_eq!(QuantizeMode::Bar.ticks_until(&timing), 0);
}

#[test]
fn test_quantize_phrase() {
    let mut timing = test_timing();
    timing.position_ticks = 100; // Past first bar

    // Phrase = 4 bars = 384 ticks
    let ticks = QuantizeMode::Phrase.ticks_until(&timing);
    assert_eq!(ticks, 284); // 384 - 100
}

#[test]
fn test_quantize_phrase_configured_bars() {
    let mut timing = test_timing();
    timing.position_ticks = 100; // Past first bar

    // A two-bar phrase is 192 ticks at 24 PPQN in 4/4.
    assert_eq!(QuantizeMode::Phrase.ticks_until_with(&timing, 2), 92);
    // The default of four bars matches the plain form.
    assert_eq!(
        QuantizeMode::Phrase.ticks_until_with(&timing, 4),
        QuantizeMode::Phrase.ticks_until(&timing)
    );
}

#[test]
fn test_queue_uses_configured_phrase_bars() {
    let mut timing = test_timing();
    timing.position_ticks = 100;

    let mut queue = TriggerQueue::new();
    queue.set_default_quantize(QuantizeMode::Phrase);
    queue.set_phrase_bars(2);
    queue.queue(0, Some(0), &timing);

    // The trigger lands on the next two-bar boundary: 100 + 92 = 192.
    let fired = queue.poll(192);
    assert_eq!(fired.len(), 1);
    assert_eq!(fired[0].trigger_tick, 192);
}

#[test]
fn test_follow_action_next() {
    let mut rng = midiseq::rng::fresh_rng();
    let action = FollowAction::Next;

    assert_eq!(action.resolve(0, 5, &mut rng), Some(1));
    assert_eq!(action.resolve(4, 5, &mut rng), Some(0)); // Wrap
}

#[test]
fn test_follow_action_previous() {
    let mut rng = midiseq::rng::fresh_rng();
    let action = FollowAction::Previous;

    assert_eq!(action.resolve(2, 5, &mut rng), Some(1));
    assert_eq!(action.resolve(0, 5, &mut rng), Some(4)); // Wrap
}

#[test]
fn test_follow_action_specific() {
    let mut rng = midiseq::rng::fresh_rng();
    let action = FollowAction::Specific(3);

    assert_eq!(action.resolve(0, 5, &mut rng), Some(3));
    assert_eq!(action.resolve(0, 2, &mut rng), None); // Out of range
}

#[test]
fn test_follow_action_either_random() {
    let mut rng = midiseq::rng::fresh_rng();
    let action = FollowAction::either(FollowAction::First, FollowAction::Last, 500);
    for _ in 0..20 {
        let r = action.resolve(2, 5, &mut rng);
        assert!(r == Some(0) || r == Some(4));
    }
    let random = FollowAction::Random;
    for _ in 0..20 {
        let r = random.resolve(0, 3, &mut rng).unwrap();
        assert!(r < 3);
    }
}

#[test]
fn test_trigger_queue() {
    let mut queue = TriggerQueue::new();
    let timing = test_timing();

    queue.queue(0, Some(1), &timing);
    queue.queue(1, Some(2), &timing);

    assert_eq!(queue.len(), 2);
}

#[test]
fn test_trigger_queue_poll() {
    let mut queue = TriggerQueue::new();
    let mut timing = test_timing();
    timing.position_ticks = 10; // Not at a bar boundary

    // Queue trigger at next bar (tick 96)
    queue.queue(0, Some(0), &timing);

    // Not yet triggered at tick 50
    let triggered = queue.poll(50);
    assert!(triggered.is_empty());

    // Triggered at tick 100 (past bar boundary at 96)
    let triggered = queue.poll(100);
    assert_eq!(triggered.len(), 1);
    assert_eq!(triggered[0].track_index, 0);
}

#[test]
fn test_trigger_queue_immediate() {
    let mut queue = TriggerQueue::new();
    let timing = test_timing();

    queue.queue_immediate(0, Some(0), &timing);

    // Should trigger immediately
    let triggered = queue.poll(0);
    assert_eq!(triggered.len(), 1);
}

#[test]
fn test_cancel_for_track() {
    let mut queue = TriggerQueue::new();
    let timing = test_timing();

    queue.queue(0, Some(0), &timing);
    queue.queue(1, Some(1), &timing);
    queue.queue(0, Some(2), &timing);

    queue.cancel_for_track(0);

    assert_eq!(queue.len(), 1);
    assert_eq!(queue.peek().unwrap().track_index, 1);
}

#[test]
fn test_next_bar_quantize_mid_bar() {
    // A trigger queued mid-bar at position 50 fires at tick 96.
    let mut queue = TriggerQueue::new();
    let mut timing = test_timing();
    timing.position_ticks = 50;
    queue.queue_with_quantize(3, Some(1), &timing, QuantizeMode::Bar);
    assert!(queue.poll(95).is_empty());
    let fired = queue.poll(96);
    assert_eq!(fired.len(), 1);
    assert_eq!(fired[0].trigger_tick, 96);
    assert_eq!(fired[0].track_index, 3);
}

fn test_context(ticks: u64) -> GeneratorContext {
    let mut ctx = GeneratorContext::for_key(Key::new(Note::C, ScaleType::Major));
    ctx.ticks_to_generate = ticks;
    ctx
}

#[test]
fn test_clip_creation() {
    let clip = Clip::new("Test Clip".to_string(), 96);
    assert_eq!(clip.name(), "Test Clip");
    assert_eq!(clip.length(), 96);
    assert_eq!(clip.state(), ClipState::Stopped);
}

#[test]
fn test_clip_notes() {
    let mut clip = Clip::new("Test".to_string(), 96);

    clip.add_note(ClipNote::new(0, 24, 60, 100));
    clip.add_note(ClipNote::new(24, 24, 62, 90));

    assert_eq!(clip.note_count(), 2);
    assert_eq!(clip.notes()[0].note, 60);
    assert_eq!(clip.notes()[1].note, 62);
}

#[test]
fn test_clip_playback() {
    let mut clip = Clip::new("Test".to_string(), 96);
    clip.add_note(ClipNote::new(0, 24, 60, 100));

    assert!(!clip.is_playing());

    clip.play();
    assert!(clip.is_playing());

    clip.stop();
    assert!(!clip.is_playing());
    assert_eq!(clip.position(), 0);
}

#[test]
fn test_clip_generate() {
    let mut clip = Clip::new("Test".to_string(), 96);
    clip.add_note(ClipNote::new(0, 24, 60, 100));
    clip.add_note(ClipNote::new(24, 24, 62, 90));

    clip.play();
    let ctx = test_context(24);
    let events = clip.generate(&ctx);

    // Should get the first note
    assert_eq!(events.len(), 1);
    assert_eq!(events[0].note, 60);

    // Generate next chunk
    let events = clip.generate(&ctx);
    assert_eq!(events.len(), 1);
    assert_eq!(events[0].note, 62);
}

#[test]
fn test_clip_loop() {
    let mut clip = Clip::new("Test".to_string(), 48); // Half bar
    clip.set_mode(ClipMode::Loop);
    clip.add_note(ClipNote::new(0, 12, 60, 100));

    clip.play();
    let ctx = test_context(24);

    // First chunk
    clip.generate(&ctx);
    assert_eq!(clip.position(), 24);

    // Second chunk (should loop)
    clip.generate(&ctx);
    assert_eq!(clip.position(), 0);
    assert_eq!(clip.loop_count(), 1);
}

#[test]
fn test_clip_one_shot() {
    let mut clip = Clip::new("Test".to_string(), 24);
    clip.set_mode(ClipMode::OneShot);

    clip.play();
    let ctx = test_context(24);

    clip.generate(&ctx);

    // Should stop after one play
    assert!(!clip.is_playing());
}

#[test]
fn test_clip_loop_count() {
    let mut clip = Clip::new("Test".to_string(), 24);
    clip.set_mode(ClipMode::LoopCount(2));

    clip.play();
    let ctx = test_context(24);

    // First loop
    clip.generate(&ctx);
    assert!(clip.is_playing());

    // Second loop
    clip.generate(&ctx);
    assert!(!clip.is_playing());
}

#[test]
fn test_clip_stop_at_end() {
    let mut clip = Clip::new("Test".to_string(), 24);
    clip.set_mode(ClipMode::Loop);

    clip.play();
    clip.stop_at_end();

    assert_eq!(clip.state(), ClipState::Stopping);

    let ctx = test_context(24);
    clip.generate(&ctx);

    assert!(!clip.is_playing());
}

#[test]
fn test_clip_ping_pong_reflection() {
    // Length 48, position 47, window 2: reflect to 47 in reverse; another
    // window of 2 moves back to 45.
    let mut clip = Clip::new("Test".to_string(), 48);
    clip.set_mode(ClipMode::PingPong);
    clip.play();
    clip.generate(&test_context(47));
    assert_eq!(clip.position(), 47);
    clip.generate(&test_context(2));
    assert_eq!(clip.position(), 47);
    assert_eq!(clip.loop_count(), 1);
    clip.generate(&test_context(2));
    assert_eq!(clip.position(), 45);
}

#[test]
fn test_clip_wrap_conservation() {
    // Looped clip: after windows summing to W, the position is
    // (initial + W) mod loop length.
    let mut clip = Clip::new("Test".to_string(), 48);
    clip.set_mode(ClipMode::Loop);
    clip.play();
    let mut total: u64 = 0;
    for w in [24u64, 30, 48, 7, 96, 13] {
        clip.generate(&test_context(w));
        total += w;
        assert_eq!(clip.position(), total % 48);
    }
}

#[test]
fn test_track_manager_solo() {
    let mut manager = TrackManager::new();
    manager.add_track(TrackConfig::new("Track 1".to_string()));
    manager.add_track(TrackConfig::new("Track 2".to_string()));
    manager.add_track(TrackConfig::new("Track 3".to_string()));

    // Initially all tracks output
    assert!(manager.should_output(0));
    assert!(manager.should_output(1));
    assert!(manager.should_output(2));

    // Solo track 1
    manager.toggle_solo(0);

    // Only track 1 should output
    assert!(manager.should_output(0));
    assert!(!manager.should_output(1));
    assert!(!manager.should_output(2));
}

#[test]
fn test_track_manager_mute() {
    let mut manager = TrackManager::new();
    manager.add_track(TrackConfig::new("Track 1".to_string()));
    manager.add_track(TrackConfig::new("Track 2".to_string()));

    // Mute track 1
    manager.toggle_mute(0);

    assert!(!manager.should_output(0));
    assert!(manager.should_output(1));
}

#[test]
fn test_track_generate_scheduled_pairs() {
    let mut track = Track::new(0, TrackConfig::new("Keys".to_string()).with_channel(3));
    let mut clip = Clip::new("Line".to_string(), 96);
    clip.add_note(ClipNote::new(0, 12, 60, 100));
    clip.add_note(ClipNote::new(24, 12, 64, 90));
    clip.play();
    track.add_clip(clip);
    track.set_active_clip(Some(0));

    let events = track.generate_scheduled(&test_context(96), 1000);
    assert_eq!(events.len(), 4);
    for pair in events.chunks(2) {
        assert_eq!(pair[0].message_type, MidiMessageType::NoteOn);
        assert_eq!(pair[1].message_type, MidiMessageType::NoteOff);
        assert_eq!(pair[0].data1, pair[1].data1);
        assert_eq!(pair[0].channel, 3);
        assert_eq!(pair[1].channel, 3);
        assert!(pair[0].time_ticks <= pair[1].time_ticks);
    }
    assert_eq!(events[0].time_ticks, 1000);
    assert_eq!(events[1].time_ticks, 1012);
}
