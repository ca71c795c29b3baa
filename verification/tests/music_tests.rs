//! Tests for the scale and key system.

use midiseq::music::scale::{CustomScaleDefinition, Key, Note, Scale, ScaleRegistry, ScaleType};

#[test]
fn test_note_pitch_class() {
    assert_eq!(Note::C.pitch_class(), 0);
    assert_eq!(Note::A.pitch_class(), 9);
    assert_eq!(Note::B.pitch_class(), 11);
}

#[test]
fn test_note_from_str() {
    assert_eq!(Note::from_str("C"), Some(Note::C));
    assert_eq!(Note::from_str("C#"), Some(Note::Cs));
    assert_eq!(Note::from_str("Db"), Some(Note::Cs));
    assert_eq!(Note::from_str("F#"), Some(Note::Fs));
    assert_eq!(Note::from_str("Bb"), Some(Note::As));
    assert_eq!(Note::from_str("X"), None);
}

#[test]
fn test_note_transpose() {
    assert_eq!(Note::C.transpose(2), Note::D);
    assert_eq!(Note::C.transpose(12), Note::C);
    assert_eq!(Note::C.transpose(-1), Note::B);
    assert_eq!(Note::G.transpose(5), Note::C);
}

#[test]
fn test_note_interval() {
    assert_eq!(Note::C.interval_to(Note::G), 7);
    assert_eq!(Note::C.interval_to(Note::C), 0);
    assert_eq!(Note::G.interval_to(Note::C), 5);
}

#[test]
fn test_scale_type_intervals() {
    let major = ScaleType::Major.intervals();
    assert_eq!(major, vec![0, 2, 4, 5, 7, 9, 11]);

    let minor = ScaleType::NaturalMinor.intervals();
    assert_eq!(minor, vec![0, 2, 3, 5, 7, 8, 10]);

    let pentatonic = ScaleType::MinorPentatonic.intervals();
    assert_eq!(pentatonic, vec![0, 3, 5, 7, 10]);
}

#[test]
fn test_scale_type_from_str() {
    assert_eq!(ScaleType::from_str("major"), Some(ScaleType::Major));
    assert_eq!(ScaleType::from_str("Minor"), Some(ScaleType::NaturalMinor));
    assert_eq!(ScaleType::from_str("dorian"), Some(ScaleType::Dorian));
    assert_eq!(ScaleType::from_str("harmonic_minor"), Some(ScaleType::HarmonicMinor));
    assert_eq!(ScaleType::from_str("unknown"), None);
}

#[test]
fn test_scale_notes() {
    let c_major = Scale::new(Note::C, ScaleType::Major);
    assert_eq!(
        c_major.notes(),
        &[Note::C, Note::D, Note::E, Note::F, Note::G, Note::A, Note::B]
    );

    let a_minor = Scale::new(Note::A, ScaleType::NaturalMinor);
    assert_eq!(
        a_minor.notes(),
        &[Note::A, Note::B, Note::C, Note::D, Note::E, Note::F, Note::G]
    );
}

#[test]
fn test_scale_contains() {
    let c_major = Scale::new(Note::C, ScaleType::Major);
    assert!(c_major.contains(Note::C));
    assert!(c_major.contains(Note::G));
    assert!(!c_major.contains(Note::Cs));
    assert!(!c_major.contains(Note::Fs));
}

#[test]
fn test_scale_degree() {
    let c_major = Scale::new(Note::C, ScaleType::Major);
    assert_eq!(c_major.degree_of(Note::C), Some(1));
    assert_eq!(c_major.degree_of(Note::E), Some(3));
    assert_eq!(c_major.degree_of(Note::B), Some(7));
    assert_eq!(c_major.degree_of(Note::Fs), None);
}

#[test]
fn test_scale_note_at_degree() {
    let c_major = Scale::new(Note::C, ScaleType::Major);
    assert_eq!(c_major.note_at_degree(1), Some(Note::C));
    assert_eq!(c_major.note_at_degree(5), Some(Note::G));
    assert_eq!(c_major.note_at_degree(0), None);
    assert_eq!(c_major.note_at_degree(8), None);
}

#[test]
fn test_transpose_in_scale() {
    let c_major = Scale::new(Note::C, ScaleType::Major);

    // Middle C (60) up 3 scale degrees = F4 (65)
    assert_eq!(c_major.transpose_in_scale(60, 3), 65);

    // Middle C down 1 scale degree = B3 (59)
    assert_eq!(c_major.transpose_in_scale(60, -1), 59);

    // G4 (67) up 1 = A4 (69)
    assert_eq!(c_major.transpose_in_scale(67, 1), 69);
}

#[test]
fn test_transpose_in_d_minor() {
    let d_minor = Scale::new(Note::D, ScaleType::NaturalMinor);

    // D4 (62) up 3 scale degrees should be G4 (67)
    // D minor: D, E, F, G, A, Bb, C
    assert_eq!(d_minor.transpose_in_scale(62, 3), 67);
}

#[test]
fn test_scale_quantize() {
    let c_major = Scale::new(Note::C, ScaleType::Major);

    // C stays C
    assert_eq!(c_major.quantize(60), 60);

    // C# should quantize to C or D
    let result = c_major.quantize(61);
    assert!(result == 60 || result == 62);

    // F# should quantize to F or G
    let result = c_major.quantize(66);
    assert!(result == 65 || result == 67);
}

#[test]
fn test_scale_relative() {
    let c_major = Scale::new(Note::C, ScaleType::Major);
    let relative = c_major.relative().unwrap();
    assert_eq!(relative.root(), Note::A);
    assert_eq!(relative.scale_type(), ScaleType::NaturalMinor);

    let a_minor = Scale::new(Note::A, ScaleType::NaturalMinor);
    let relative = a_minor.relative().unwrap();
    assert_eq!(relative.root(), Note::C);
    assert_eq!(relative.scale_type(), ScaleType::Major);
}

#[test]
fn test_scale_parallel() {
    let c_major = Scale::new(Note::C, ScaleType::Major);
    let parallel = c_major.parallel().unwrap();
    assert_eq!(parallel.root(), Note::C);
    assert_eq!(parallel.scale_type(), ScaleType::NaturalMinor);
}

#[test]
fn test_key_transpose() {
    let c_major = Key::new(Note::C, ScaleType::Major);
    let transposed = c_major.transpose(7);
    assert_eq!(transposed.root(), Note::G);
}

#[test]
fn test_key_dominant_subdominant() {
    let c_major = Key::new(Note::C, ScaleType::Major);
    assert_eq!(c_major.dominant().root(), Note::G);
    assert_eq!(c_major.subdominant().root(), Note::F);
}

#[test]
fn test_custom_scale() {
    // Whole-half diminished manually
    let custom = Scale::custom(Note::C, vec![0, 2, 3, 5, 6, 8, 9, 11]);
    assert_eq!(custom.len(), 8);
    assert!(custom.contains(Note::C));
    assert!(custom.contains(Note::Ds));
    assert!(!custom.contains(Note::E));
}

#[test]
fn test_scale_registry() {
    let mut registry = ScaleRegistry::new();

    // Register a custom "Super Locrian" scale
    registry.register(CustomScaleDefinition {
        name: "super_locrian".to_string(),
        intervals: vec![0, 1, 3, 4, 6, 8, 10],
    });

    // Get custom scale
    let custom = registry.get_scale(Note::C, "super_locrian");
    assert!(custom.is_some());
    let custom = custom.unwrap();
    assert_eq!(custom.len(), 7);

    // Get built-in scale
    let major = registry.get_scale(Note::C, "major");
    assert!(major.is_some());
}

#[test]
fn test_midi_note_at() {
    let c_major = Scale::new(Note::C, ScaleType::Major);

    // Middle C is C4 in MIDI = 60
    assert_eq!(c_major.midi_note_at(1, 4), Some(60));

    // E4 = 64
    assert_eq!(c_major.midi_note_at(3, 4), Some(64));

    // G5 = 79
    assert_eq!(c_major.midi_note_at(5, 5), Some(79));
}

#[test]
fn test_key_parse() {
    let key = Key::parse("A", "minor").unwrap();
    assert_eq!(key.root(), Note::A);
    assert_eq!(key.scale().scale_type(), ScaleType::NaturalMinor);
    assert!(Key::parse("H", "minor").is_none());
    assert!(Key::parse("A", "sideways").is_none());
}

#[test]
fn test_available_scales_sorted_unique() {
    let mut registry = ScaleRegistry::new();
    registry.register(CustomScaleDefinition {
        name: "super_locrian".to_string(),
        intervals: vec![0, 1, 3, 4, 6, 8, 10],
    });
    // A custom name shadowing a built-in must not appear twice.
    registry.register(CustomScaleDefinition {
        name: "major".to_string(),
        intervals: vec![0, 2, 4, 5, 7, 9, 11],
    });
    let names = registry.available_scales();
    assert!(names.contains(&"super_locrian".to_string()));
    assert!(names.contains(&"major".to_string()));
    assert!(names.contains(&"chromatic".to_string()));
    for w in names.windows(2) {
        assert!(w[0] < w[1], "names must be strictly sorted: {:?}", names);
    }
}
