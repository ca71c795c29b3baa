//! Tests for freezing, the recorded-note model and MIDI export tracks.

use midiseq::generators::MidiEvent;
use midiseq::recording::capture::{PunchRegion, RecordedNote};
use midiseq::recording::export::{
    encode_variable_length, ExportNote, ExportTrack, MidiExportEvent,
};
use midiseq::recording::freeze::{ClipFreezer, FreezeOptions, FreezerState, FrozenNote};

#[test]
fn test_freezer_creation() {
    let freezer = ClipFreezer::new(24);
    assert_eq!(freezer.state(), FreezerState::Idle);
    assert!(!freezer.is_freezing());
}

#[test]
fn mod_test_freezer_creation() {
    let freezer = ClipFreezer::new(24);
    assert!(!freezer.is_freezing());
}

#[test]
fn test_freezer_start_stop() {
    let mut freezer = ClipFreezer::new(24);
    let options = FreezeOptions::bars(4, 24, 4);

    freezer.start(options);
    assert_eq!(freezer.state(), FreezerState::Capturing);
    assert!(freezer.is_freezing());

    freezer.stop();
    assert_eq!(freezer.state(), FreezerState::Complete);
    assert!(freezer.is_complete());
}

#[test]
fn test_freeze_events() {
    let mut freezer = ClipFreezer::new(24);
    let options = FreezeOptions::ticks(96);

    freezer.start(options);

    let events = vec![MidiEvent {
        start_tick: 0,
        channel: 0,
        note: 60,
        velocity: 100,
        duration_ticks: 24,
    }];

    // Note on
    freezer.process_events(&events);

    // Note off
    let off_events = vec![MidiEvent {
        start_tick: 24,
        channel: 0,
        note: 60,
        velocity: 0,
        duration_ticks: 0,
    }];
    freezer.process_events(&off_events);

    assert_eq!(freezer.note_count(), 1);
    let note = &freezer.notes()[0];
    assert_eq!(note.note, 60);
    assert_eq!(note.velocity, 100);
    assert_eq!(note.start_tick, 0);
    assert_eq!(note.duration, 24);
}

#[test]
fn test_freeze_options_bars() {
    let options = FreezeOptions::bars(2, 24, 4);
    assert_eq!(options.total_ticks(), 2 * 4 * 24);
}

#[test]
fn test_freeze_quantization() {
    let mut freezer = ClipFreezer::new(24);
    let mut options = FreezeOptions::ticks(96);
    options.quantize_grid = Some(12); // 8th notes

    freezer.start(options);

    // Start tick 7 rounds up to 12 (7+6=13, 13/12=1, 1*12=12)
    let events = vec![MidiEvent {
        start_tick: 7, // Off grid, will quantize to 12
        channel: 0,
        note: 60,
        velocity: 100,
        duration_ticks: 20,
    }];
    freezer.process_events(&events);

    let off_events = vec![MidiEvent {
        start_tick: 30, // Off grid, will quantize to 36
        channel: 0,
        note: 60,
        velocity: 0,
        duration_ticks: 0,
    }];
    freezer.process_events(&off_events);

    let note = &freezer.notes()[0];
    assert_eq!(note.start_tick, 12); // Quantized: (7+6)/12*12 = 12
    assert_eq!(note.duration, 24); // End at 36, duration = 36 - 12
}

#[test]
fn test_frozen_note() {
    let event = MidiEvent {
        start_tick: 10,
        channel: 0,
        note: 60,
        velocity: 100,
        duration_ticks: 24,
    };

    let frozen = FrozenNote::from_events(&event, 24);
    assert_eq!(frozen.note, 60);
    assert_eq!(frozen.start_tick, 10);
    assert_eq!(frozen.duration, 24);
    assert_eq!(frozen.end_tick(), 34);
}

#[test]
fn test_merge_overlapping() {
    let mut freezer = ClipFreezer::new(24);
    let mut options = FreezeOptions::ticks(96);
    options.merge_notes = true;
    freezer.set_options(options);

    freezer.add_note(FrozenNote {
        channel: 0,
        note: 60,
        velocity: 100,
        start_tick: 0,
        duration: 20,
    });
    freezer.add_note(FrozenNote {
        channel: 0,
        note: 60,
        velocity: 100,
        start_tick: 15, // Overlaps with first
        duration: 20,
    });

    freezer.merge_overlapping();

    assert_eq!(freezer.note_count(), 1);
    assert_eq!(freezer.notes()[0].start_tick, 0);
    assert_eq!(freezer.notes()[0].duration, 35); // Merged duration
}

#[test]
fn test_cancel_freeze() {
    let mut freezer = ClipFreezer::new(24);
    freezer.start(FreezeOptions::ticks(96));

    freezer.tick(24);
    freezer.cancel();

    assert_eq!(freezer.state(), FreezerState::Idle);
    assert!(freezer.notes().is_empty());
}

#[test]
fn test_min_note_length() {
    let mut freezer = ClipFreezer::new(24);
    let mut options = FreezeOptions::ticks(96);
    options.min_note_length = 10;

    freezer.start(options);

    // Short note (should be filtered)
    let events = vec![MidiEvent {
        start_tick: 0,
        channel: 0,
        note: 60,
        velocity: 100,
        duration_ticks: 5,
    }];
    freezer.process_events(&events);

    let off_events = vec![MidiEvent {
        start_tick: 5,
        channel: 0,
        note: 60,
        velocity: 0,
        duration_ticks: 0,
    }];
    freezer.process_events(&off_events);

    assert_eq!(freezer.note_count(), 0);
}

#[test]
fn test_freeze_auto_complete() {
    let mut freezer = ClipFreezer::new(24);
    let options = FreezeOptions::ticks(48);

    freezer.start(options);
    assert!(freezer.is_freezing());

    freezer.tick(24);
    assert!(freezer.is_freezing());
    assert_eq!(freezer.position(), 24);

    freezer.tick(24);
    assert!(freezer.is_complete());
}

#[test]
fn test_punch_region() {
    let region = PunchRegion::new(100, 200);

    assert!(!region.contains(50));
    assert!(region.contains(100));
    assert!(region.contains(150));
    assert!(!region.contains(200));
    assert!(!region.contains(250));
}

#[test]
fn test_recorded_note() {
    let note = RecordedNote::new(0, 60, 100, 0, 24);
    assert_eq!(note.end_tick(), 24);
}

#[test]
fn test_export_note() {
    let note = ExportNote::new(0, 60, 100, 480);
    assert_eq!(note.end_tick(), 480);
}

#[test]
fn test_export_track() {
    let mut track = ExportTrack::new("Piano".to_string(), 0);
    track.add_note(ExportNote::new(0, 60, 100, 480));
    track.add_note(ExportNote::new(480, 64, 90, 480));

    assert_eq!(track.notes.len(), 2);
}

#[test]
fn test_add_frozen_notes() {
    let frozen = vec![
        FrozenNote { channel: 0, note: 60, velocity: 100, start_tick: 0, duration: 24 },
        FrozenNote { channel: 0, note: 64, velocity: 90, start_tick: 24, duration: 24 },
    ];

    let mut track = ExportTrack::new("Test".to_string(), 0);
    track.add_frozen_notes(&frozen);

    assert_eq!(track.notes.len(), 2);
    assert_eq!(track.notes[0].note, 60);
    assert_eq!(track.notes[1].note, 64);
}

#[test]
fn test_track_with_program() {
    let track = ExportTrack::new("Strings".to_string(), 0).with_program(48);
    assert_eq!(track.program, Some(48));
}

#[test]
fn test_export_track_sort() {
    let mut track = ExportTrack::new("Mixed".to_string(), 0);
    track.add_note(ExportNote::new(480, 64, 90, 480));
    track.add_note(ExportNote::new(0, 60, 100, 480));
    track.sort();
    assert_eq!(track.notes[0].tick, 0);
    assert_eq!(track.notes[1].tick, 480);
}

#[test]
fn test_variable_length_encoding() {
    // Cases from the MIDI file format definition
    assert_eq!(encode_variable_length(0x00), vec![0x00]);
    assert_eq!(encode_variable_length(0x7F), vec![0x7F]);
    assert_eq!(encode_variable_length(0x80), vec![0x81, 0x00]);
    assert_eq!(encode_variable_length(0x2000), vec![0xC0, 0x00]);
    assert_eq!(encode_variable_length(0x3FFF), vec![0xFF, 0x7F]);
    assert_eq!(encode_variable_length(0x4000), vec![0x81, 0x80, 0x00]);
}

#[test]
fn test_export_event_bytes() {
    let on = MidiExportEvent::note_on(0, 1, 60, 100);
    assert_eq!(on.data, vec![0x91, 60, 100]);

    let off = MidiExportEvent::note_off(10, 1, 60);
    assert_eq!(off.data, vec![0x81, 60, 0]);

    // 120 BPM reads as 500,000 microseconds per beat: 0x07 0xA1 0x20.
    let tempo = MidiExportEvent::tempo(0, 120_000);
    assert_eq!(tempo.data, vec![0xFF, 0x51, 0x03, 0x07, 0xA1, 0x20]);

    // 4/4 carries a denominator power of two.
    let sig = MidiExportEvent::time_signature(0, 4, 4);
    assert_eq!(sig.data, vec![0xFF, 0x58, 0x04, 4, 2, 24, 8]);

    let end = MidiExportEvent::end_of_track(96);
    assert_eq!(end.data, vec![0xFF, 0x2F, 0x00]);
}
