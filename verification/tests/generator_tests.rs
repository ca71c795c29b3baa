//! Tests for the generators and the shared Euclidean rhythm.

use midiseq::generators::arpeggio::{ArpConfig, ArpPattern, ArpeggioGenerator};
use midiseq::generators::chord::{ChordGenerator, InversionMode, ProgressionMode, Voicing};
use midiseq::generators::drone::DroneGenerator;
use midiseq::generators::drums as gm_drums;
use midiseq::generators::drums::{DrumGenerator, DrumStyle};
use midiseq::generators::euclid::euclidean;
use midiseq::generators::melody::{MelodyGenerator, Motif, MotifTransform};
use midiseq::generators::{create_generator, GeneratorContext, MidiEvent};
use midiseq::music::scale::{Key, Note, ScaleType};

fn one_bar_context() -> GeneratorContext {
    let mut ctx = GeneratorContext::for_key(Key::new(Note::C, ScaleType::Major));
    ctx.ticks_to_generate = 96;
    ctx
}

#[test]
fn test_midi_event_creation() {
    let event = MidiEvent::new(60, 100, 0, 12);
    assert_eq!(event.note, 60);
    assert_eq!(event.velocity, 100);
    assert_eq!(event.start_tick, 0);
    assert_eq!(event.duration_ticks, 12);
    assert_eq!(event.channel, 0);

    let event = event.with_channel(5);
    assert_eq!(event.channel, 5);
}

#[test]
fn test_voicing_types() {
    assert_eq!(Voicing::from_value(0), Voicing::Close);
    assert_eq!(Voicing::from_value(1), Voicing::Open);
    assert_eq!(Voicing::from_value(2), Voicing::Drop2);
    assert_eq!(Voicing::from_value(3), Voicing::Spread);
}

#[test]
fn test_inversion_modes() {
    assert_eq!(InversionMode::from_value(0), InversionMode::Root);
    assert_eq!(InversionMode::from_value(1), InversionMode::Random);
    assert_eq!(InversionMode::from_value(2), InversionMode::VoiceLed);
    assert_eq!(InversionMode::from_value(3), InversionMode::Ascending);
}

#[test]
fn test_drums_gm_notes() {
    // Verify GM drum note mappings
    assert_eq!(gm_drums::KICK, 36);
    assert_eq!(gm_drums::SNARE, 38);
    assert_eq!(gm_drums::CLOSED_HAT, 42);
}

#[test]
fn test_motif_transforms() {
    let motif = Motif::new(vec![0, 2, 4, 2], vec![8, 8, 8, 8]);

    // Invert
    let inverted = motif.transform(MotifTransform::Invert);
    assert_eq!(inverted.intervals, vec![0, -2, -4, -2]);

    // Retrograde
    let retro = motif.transform(MotifTransform::Retrograde);
    assert_eq!(retro.intervals, vec![2, 4, 2, 0]);

    // Transpose
    let transposed = motif.transform(MotifTransform::Transpose(3));
    assert_eq!(transposed.intervals, vec![3, 5, 7, 5]);
}

#[test]
fn test_euclidean_rhythm() {
    // Classic 3-over-8 euclidean
    let pattern = euclidean(3, 8);
    assert_eq!(pattern.len(), 8);
    assert_eq!(pattern.iter().filter(|&&b| b).count(), 3);

    // 5-over-8
    let pattern = euclidean(5, 8);
    assert_eq!(pattern.iter().filter(|&&b| b).count(), 5);

    // Edge cases
    let pattern = euclidean(0, 8);
    assert!(pattern.iter().all(|&b| !b));

    let pattern = euclidean(8, 8);
    assert!(pattern.iter().all(|&b| b));

    // 4-over-16 (four-on-floor)
    let pattern = euclidean(4, 16);
    assert_eq!(pattern.iter().filter(|&&b| b).count(), 4);
}

#[test]
fn test_arpeggio_creation() {
    let arp = ArpeggioGenerator::new();
    assert_eq!(arp.name(), "arpeggio");
    assert_eq!(arp.config().rate, 8);
}

#[test]
fn test_arpeggio_generates_notes() {
    let mut arp = ArpeggioGenerator::new();
    let ctx = one_bar_context();

    let events = arp.generate(&ctx);
    assert!(!events.is_empty());
}

#[test]
fn test_arpeggio_pattern_up() {
    let mut arp = ArpeggioGenerator::new();
    let mut config = ArpConfig::default();
    config.pattern = ArpPattern::Up;
    config.octaves = 1;
    config.rate = 4; // Quarter notes
    arp.set_config(config);

    let ctx = one_bar_context();
    let events = arp.generate(&ctx);

    // Should generate 4 quarter notes in one bar
    assert_eq!(events.len(), 4);

    // Notes should be ascending and inside one octave of C major
    for i in 1..events.len() {
        assert!(events[i].note >= events[i - 1].note);
    }
    for event in &events {
        assert!((60..=71).contains(&event.note));
    }
}

#[test]
fn test_arpeggio_notes_in_scale() {
    let mut arp = ArpeggioGenerator::new();
    let ctx = one_bar_context();

    let events = arp.generate(&ctx);
    let scale = ctx.key.scale();

    for event in events {
        assert!(scale.contains_midi(event.note), "Note {} not in scale", event.note);
    }
}

#[test]
fn test_arpeggio_reset_state() {
    let mut arp = ArpeggioGenerator::new();
    let ctx = one_bar_context();

    arp.generate(&ctx);
    arp.reset();
    // After a reset the next window starts the pattern over, as a fresh
    // generator would.
    let fresh_events = arp.generate(&ctx);
    let mut fresh = ArpeggioGenerator::new();
    let new_events = fresh.generate(&ctx);
    let fresh_notes: Vec<u8> = fresh_events.iter().map(|e| e.note).collect();
    let new_notes: Vec<u8> = new_events.iter().map(|e| e.note).collect();
    assert_eq!(fresh_notes, new_notes);
}

#[test]
fn test_chord_creation() {
    let chord = ChordGenerator::new();
    assert_eq!(chord.name(), "chord");
    assert_eq!(chord.config().progression_mode, ProgressionMode::Functional);
}

#[test]
fn test_chord_generates_notes() {
    let mut chord = ChordGenerator::new();
    let ctx = one_bar_context();

    let events = chord.generate(&ctx);
    assert!(!events.is_empty());

    // Should have at least 3 notes (triad)
    assert!(events.len() >= 3);
}

#[test]
fn test_chord_notes_in_scale() {
    let mut chord = ChordGenerator::new();
    let ctx = one_bar_context();
    let events = chord.generate(&ctx);
    let scale = ctx.key.scale();

    for event in events {
        assert!(scale.contains_midi(event.note), "Note {} not in scale", event.note);
    }
}

#[test]
fn test_drone_creation() {
    let drone = DroneGenerator::new();
    assert_eq!(drone.name(), "drone");
    assert_eq!(drone.config().voices, 3);
}

#[test]
fn test_drone_generates_notes() {
    let mut drone = DroneGenerator::new();
    let ctx = one_bar_context();

    let events = drone.generate(&ctx);
    // One sustained event per voice
    assert_eq!(events.len(), 3);
    for event in &events {
        assert_eq!(event.start_tick, 0);
        assert_eq!(event.duration_ticks, 96);
    }
}

#[test]
fn test_drone_notes_in_scale() {
    let mut drone = DroneGenerator::new();
    let ctx = one_bar_context();

    // Run several windows so voices move, and check scale membership
    // throughout.
    let scale = ctx.key.scale();
    for _ in 0..16 {
        let events = drone.generate(&ctx);
        for event in events {
            assert!(scale.contains_midi(event.note), "Note {} not in scale", event.note);
        }
    }
}

#[test]
fn test_melody_creation() {
    let melody = MelodyGenerator::new();
    assert_eq!(melody.name(), "melody");
}

#[test]
fn test_melody_notes_in_scale() {
    let mut melody = MelodyGenerator::new();
    let ctx = one_bar_context();
    let scale = ctx.key.scale();

    for _ in 0..8 {
        let events = melody.generate(&ctx);
        for event in events {
            assert!(scale.contains_midi(event.note), "Note {} not in scale", event.note);
        }
    }
}

#[test]
fn test_drums_creation() {
    let drums = DrumGenerator::new();
    assert_eq!(drums.name(), "drums");
    assert_eq!(drums.config().style, DrumStyle::FourOnFloor);
}

#[test]
fn test_drums_generates_events() {
    let mut drums = DrumGenerator::new();
    let ctx = one_bar_context();

    let events = drums.generate(&ctx);
    assert!(!events.is_empty());
}

#[test]
fn test_four_on_floor_kick_offsets() {
    // With humanization off and a full bar, the kick lands on offsets
    // 0, 24, 48 and 72.
    let mut drums = DrumGenerator::new();
    let mut config = *drums.config();
    config.humanize_velocity = 0;
    config.fill_permille = 0;
    drums.set_config(config);

    let ctx = one_bar_context();
    let events = drums.generate(&ctx);
    let kick_ticks: Vec<u64> = events
        .iter()
        .filter(|e| e.note == gm_drums::KICK)
        .map(|e| e.start_tick)
        .collect();
    assert_eq!(kick_ticks, vec![0, 24, 48, 72]);
    let snare_ticks: Vec<u64> = events
        .iter()
        .filter(|e| e.note == gm_drums::SNARE)
        .map(|e| e.start_tick)
        .collect();
    assert_eq!(snare_ticks, vec![24, 72]);
}

#[test]
fn test_create_generator_by_name() {
    assert!(create_generator("drone").is_some());
    assert!(create_generator("arpeggio").is_some());
    assert!(create_generator("chord").is_some());
    assert!(create_generator("melody").is_some());
    assert!(create_generator("drums").is_some());
    assert!(create_generator("theremin").is_none());
    assert_eq!(create_generator("melody").unwrap().name(), "melody");
}

#[test]
fn test_voice_led_chord_picks_nearest_inversion() {
    // A custom I-IV progression with no sevenths, ninths or suspensions
    // is fully deterministic. After a C triad, the voice-led F triad
    // stays in root position, the rotation with the least movement.
    let mut chord = ChordGenerator::new();
    let mut config = chord.config().clone();
    config.progression_mode = ProgressionMode::Custom;
    config.custom_progression = vec![1, 4];
    config.inversion_mode = InversionMode::VoiceLed;
    config.voicing = Voicing::Close;
    config.seventh_permille = 0;
    config.ninth_permille = 0;
    config.sus_permille = 0;
    chord.set_config(config);

    let ctx = one_bar_context();
    let first = chord.generate(&ctx);
    let first_notes: Vec<u8> = first.iter().map(|e| e.note).collect();
    assert_eq!(first_notes, vec![48, 52, 55]); // C3 E3 G3

    let second = chord.generate(&ctx);
    let second_notes: Vec<u8> = second.iter().map(|e| e.note).collect();
    // Candidate rotations of the F triad move 15, 27 and 39 semitones in
    // total; the root position wins.
    assert_eq!(second_notes, vec![53, 57, 60]); // F3 A3 C4
}
