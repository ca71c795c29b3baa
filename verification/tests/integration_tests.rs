//! Integration tests: timing arithmetic, the generator-to-scheduler flow,
//! and configuration validation across components.

use midiseq::generators::{create_generator, GeneratorContext, GeneratorKind};
use midiseq::music::scale::{Key, Note, ScaleType};
use midiseq::sequencer::scheduler::Scheduler;
use midiseq::sequencer::track::{Track, TrackConfig};

/// Test that the full playback pipeline works
#[test]
fn test_full_playback_pipeline() {
    // Verify basic timing calculations
    let ppqn = 24u32;
    let tempo = 120.0f64;

    // At 120 BPM with 24 PPQN:
    // - 1 beat = 500ms
    // - 1 tick = 500ms / 24 = ~20.83ms
    let micros_per_beat = (60_000_000.0 / tempo) as u64;
    let micros_per_tick = micros_per_beat / ppqn as u64;

    assert_eq!(micros_per_beat, 500_000); // 500ms per beat
    assert!(micros_per_tick > 20_000 && micros_per_tick < 21_000);

    // Verify a bar calculation
    let beats_per_bar = 4u32;
    let ticks_per_bar = ppqn * beats_per_bar;
    assert_eq!(ticks_per_bar, 96);

    // Verify position calculation
    let total_ticks = 250u64;
    let bars = total_ticks / ticks_per_bar as u64;
    let remaining = total_ticks % ticks_per_bar as u64;
    let beats = remaining / ppqn as u64;
    let ticks = remaining % ppqn as u64;

    assert_eq!(bars, 2);
    assert_eq!(beats, 2);
    assert_eq!(ticks, 10);
}

/// Test that generator output flows through the system
#[test]
fn test_generator_to_scheduler_flow() {
    // Simulate the flow of events from generator through scheduler

    // Create mock events (simulating generator output)
    let events: Vec<(u64, u8, u8, u8)> = vec![
        (0, 60, 100, 24),  // Note at tick 0, C4, vel 100, dur 24
        (24, 62, 90, 24),  // Note at tick 24, D4
        (48, 64, 95, 24),  // Note at tick 48, E4
        (72, 65, 85, 24),  // Note at tick 72, F4
    ];

    // Simulate scheduling
    let mut scheduled: Vec<(u64, String)> = Vec::new();

    for (tick, note, vel, dur) in &events {
        // Schedule note on
        scheduled.push((*tick, format!("NoteOn: {} vel {}", note, vel)));
        // Schedule note off
        scheduled.push((tick + *dur as u64, format!("NoteOff: {}", note)));
    }

    // Sort by tick (scheduler would do this)
    scheduled.sort_by_key(|(tick, _)| *tick);

    // Verify order
    assert_eq!(scheduled.len(), 8);
    assert_eq!(scheduled[0].0, 0);
    assert!(scheduled[0].1.contains("NoteOn: 60"));
    assert_eq!(scheduled[1].0, 24);
    assert!(scheduled[1].1.contains("NoteOff: 60") || scheduled[1].1.contains("NoteOn: 62"));
}

/// Test timing accuracy over extended period
#[test]
fn test_timing_accuracy() {
    // Simulate timing over many ticks to check for drift
    let ppqn = 24u32;
    let tempo = 120.0f64;
    let micros_per_tick = (60_000_000.0 / tempo / ppqn as f64) as u64;

    // Simulate 10 bars (960 ticks at 24 PPQN, 4/4)
    let total_ticks = 960u64;
    let expected_duration_micros = total_ticks * micros_per_tick;

    // At 120 BPM, 10 bars = 20 seconds
    let expected_seconds = 20.0;
    let actual_seconds = expected_duration_micros as f64 / 1_000_000.0;

    // Allow 1% tolerance
    assert!((actual_seconds - expected_seconds).abs() < expected_seconds * 0.01);
}

/// Test MIDI recording and playback
#[test]
fn test_recording_playback_cycle() {
    // Simulate recording notes and playing them back

    #[derive(Debug, Clone, PartialEq)]
    struct RecordedNote {
        tick: u64,
        note: u8,
        velocity: u8,
        duration: u64,
    }

    // "Record" some notes
    let recorded: Vec<RecordedNote> = vec![
        RecordedNote { tick: 0, note: 60, velocity: 100, duration: 24 },
        RecordedNote { tick: 24, note: 64, velocity: 90, duration: 24 },
        RecordedNote { tick: 48, note: 67, velocity: 95, duration: 48 },
    ];

    // "Playback" - generate events from recorded notes
    let mut playback_events: Vec<(u64, String)> = Vec::new();

    for note in &recorded {
        playback_events.push((note.tick, format!("on:{}", note.note)));
        playback_events.push((note.tick + note.duration, format!("off:{}", note.note)));
    }

    playback_events.sort_by_key(|(t, _)| *t);

    // Verify events
    assert_eq!(playback_events.len(), 6);

    // Check event order
    assert_eq!(playback_events[0], (0, "on:60".to_string()));
    assert_eq!(playback_events[1], (24, "off:60".to_string()));
    assert_eq!(playback_events[2], (24, "on:64".to_string()));
    assert_eq!(playback_events[3], (48, "off:64".to_string()));
    assert_eq!(playback_events[4], (48, "on:67".to_string()));
    assert_eq!(playback_events[5], (96, "off:67".to_string()));
}

/// Test config validation
#[test]
fn test_config_validation() {
    // Test that invalid configs are rejected

    fn validate_tempo(tempo: f64) -> Result<(), &'static str> {
        if tempo < 20.0 {
            Err("Tempo too slow")
        } else if tempo > 300.0 {
            Err("Tempo too fast")
        } else {
            Ok(())
        }
    }

    fn validate_channel(channel: u8) -> Result<(), &'static str> {
        if channel > 15 {
            Err("Invalid MIDI channel")
        } else {
            Ok(())
        }
    }

    fn validate_velocity(velocity: u8) -> Result<(), &'static str> {
        if velocity > 127 {
            Err("Invalid velocity")
        } else {
            Ok(())
        }
    }

    // Valid configs
    assert!(validate_tempo(120.0).is_ok());
    assert!(validate_channel(0).is_ok());
    assert!(validate_channel(15).is_ok());
    assert!(validate_velocity(100).is_ok());

    // Invalid configs
    assert!(validate_tempo(10.0).is_err());
    assert!(validate_tempo(400.0).is_err());
    assert!(validate_channel(16).is_err());
}

/// Test MIDI file export format
#[test]
fn test_midi_export_format() {
    // Test variable-length quantity encoding (used in MIDI files)

    fn encode_variable_length(mut value: u32) -> Vec<u8> {
        let mut bytes = Vec::new();
        bytes.push((value & 0x7F) as u8);
        value >>= 7;

        while value > 0 {
            bytes.push((value & 0x7F) as u8 | 0x80);
            value >>= 7;
        }

        bytes.reverse();
        bytes
    }

    // Test cases from MIDI spec
    assert_eq!(encode_variable_length(0x00), vec![0x00]);
    assert_eq!(encode_variable_length(0x7F), vec![0x7F]);
    assert_eq!(encode_variable_length(0x80), vec![0x81, 0x00]);
    assert_eq!(encode_variable_length(0x2000), vec![0xC0, 0x00]);
    assert_eq!(encode_variable_length(0x3FFF), vec![0xFF, 0x7F]);
    assert_eq!(encode_variable_length(0x4000), vec![0x81, 0x80, 0x00]);
}

/// Test extended operation (simulated)
#[test]
fn test_extended_operation_simulation() {
    // Simulate extended operation to check for issues
    // This is a fast simulation, not real-time

    let mut tick_count = 0u64;
    let mut note_on_count = 0u64;
    let mut note_off_count = 0u64;

    // Simulate 10 minutes at 120 BPM
    // 10 min * 60 sec * 2 beats/sec * 24 ticks/beat = 28,800 ticks
    let total_ticks = 28_800u64;

    while tick_count < total_ticks {
        // Simulate note generation every beat
        if tick_count % 24 == 0 {
            note_on_count += 1;
        }

        // Simulate note off after duration
        if tick_count >= 12 && (tick_count - 12) % 24 == 0 {
            note_off_count += 1;
        }

        tick_count += 1;
    }

    // Verify counts are reasonable
    assert!(note_on_count > 0);
    assert!(note_off_count > 0);

    // Note ons should roughly equal note offs (minus last few)
    assert!((note_on_count as i64 - note_off_count as i64).abs() < 10);

    // Should have approximately correct number of notes
    // 10 min = 300 bars at 120 BPM, 4 notes per bar = 1200 notes
    assert!(note_on_count >= 1100 && note_on_count <= 1300);
}

/// Test memory-safe event handling
#[test]
fn test_event_queue_memory() {
    // Test that event queue handles large numbers of events

    let mut events: Vec<(u64, Vec<u8>)> = Vec::new();

    // Add 10,000 events
    for i in 0..10_000u64 {
        events.push((i, vec![0x90, (i % 128) as u8, 100]));
    }

    // Sort (simulating scheduler)
    events.sort_by_key(|(tick, _)| *tick);

    // Process (drain) events
    let processed: Vec<_> = events.drain(..).collect();

    assert_eq!(processed.len(), 10_000);
    assert!(events.is_empty());
}

/// A drum generator driving a track into the scheduler produces a sorted
/// stream of paired events.
#[test]
fn test_generator_track_scheduler_chain() {
    let mut track = Track::new(0, TrackConfig::new("Drums".to_string()).with_channel(9));
    let generator: GeneratorKind = create_generator("drums").unwrap();
    track.set_generator(generator);

    let mut ctx = GeneratorContext::for_key(Key::new(Note::C, ScaleType::Major));
    ctx.ticks_to_generate = 96;

    let scheduled = track.generate_scheduled(&ctx, 0);
    assert!(!scheduled.is_empty());
    assert_eq!(scheduled.len() % 2, 0);

    let mut scheduler = Scheduler::new();
    scheduler.schedule_all(scheduled);
    scheduler.start(0);
    let polled = scheduler.poll_window(0, 60_000_000);
    for pair in polled.windows(2) {
        assert!(pair[0].time_micros <= pair[1].time_micros);
    }
}
