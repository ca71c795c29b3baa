//! Tests for MIDI parsing, learn capture and external clock sync.

use midiseq::midi::input::{ExternalClockSync, MidiLearnCapture, MidiMessage};
use midiseq::midi::messages;

#[test]
fn test_parse_note_on() {
    let msg = MidiMessage::parse(&[0x90, 60, 100]);
    assert_eq!(
        msg,
        Some(MidiMessage::NoteOn { channel: 0, note: 60, velocity: 100 })
    );
}

#[test]
fn test_parse_note_on_velocity_zero() {
    // Note On with velocity 0 should be treated as Note Off
    let msg = MidiMessage::parse(&[0x90, 60, 0]);
    assert_eq!(
        msg,
        Some(MidiMessage::NoteOff { channel: 0, note: 60, velocity: 0 })
    );
}

#[test]
fn test_parse_note_off() {
    let msg = MidiMessage::parse(&[0x80, 60, 64]);
    assert_eq!(
        msg,
        Some(MidiMessage::NoteOff { channel: 0, note: 60, velocity: 64 })
    );
}

#[test]
fn test_parse_control_change() {
    let msg = MidiMessage::parse(&[0xB0, 1, 64]); // Mod wheel
    assert_eq!(
        msg,
        Some(MidiMessage::ControlChange { channel: 0, controller: 1, value: 64 })
    );
}

#[test]
fn test_parse_program_change() {
    let msg = MidiMessage::parse(&[0xC0, 5]);
    assert_eq!(
        msg,
        Some(MidiMessage::ProgramChange { channel: 0, program: 5 })
    );
}

#[test]
fn test_parse_pitch_bend() {
    // Center position (0)
    let msg = MidiMessage::parse(&[0xE0, 0x00, 0x40]);
    assert_eq!(msg, Some(MidiMessage::PitchBend { channel: 0, value: 0 }));
}

#[test]
fn test_parse_clock_messages() {
    assert_eq!(MidiMessage::parse(&[0xF8]), Some(MidiMessage::TimingClock));
    assert_eq!(MidiMessage::parse(&[0xFA]), Some(MidiMessage::Start));
    assert_eq!(MidiMessage::parse(&[0xFB]), Some(MidiMessage::Continue));
    assert_eq!(MidiMessage::parse(&[0xFC]), Some(MidiMessage::Stop));
}

#[test]
fn test_midi_learn() {
    let mut learn = MidiLearnCapture::new();
    assert!(!learn.active);

    learn.start();
    assert!(learn.active);

    let msg = MidiMessage::ControlChange { channel: 0, controller: 1, value: 64 };

    assert!(learn.capture(&msg));
    assert!(!learn.active);
    assert_eq!(learn.message, Some(msg));
}

#[test]
fn test_external_clock_sync() {
    let mut sync = ExternalClockSync::new();
    sync.enable();

    // Start
    sync.process(&MidiMessage::Start);
    assert!(sync.running);
    assert_eq!(sync.tick_count, 0);

    // 24 ticks = 1 beat
    for _ in 0..24 {
        sync.process(&MidiMessage::TimingClock);
    }
    assert_eq!(sync.current_beat(), 1);
    assert_eq!(sync.current_pulse(), 0);

    // Stop
    sync.process(&MidiMessage::Stop);
    assert!(!sync.running);
}

#[test]
fn test_midi_message_constants() {
    assert_eq!(messages::NOTE_ON, 0x90);
    assert_eq!(messages::NOTE_OFF, 0x80);
    assert_eq!(messages::TIMING_CLOCK, 0xF8);
    assert_eq!(messages::START, 0xFA);
    assert_eq!(messages::STOP, 0xFC);
}

#[test]
fn test_parse_unknown_keeps_bytes() {
    // A system-common status the parser does not recognize comes back as
    // Unknown with the bytes unchanged.
    let msg = MidiMessage::parse(&[0xF0, 1, 2, 0xF7]);
    assert_eq!(msg, Some(MidiMessage::Unknown(vec![0xF0, 1, 2, 0xF7])));
    assert_eq!(MidiMessage::parse(&[]), None);
}

#[test]
fn test_is_clock_message() {
    assert!(MidiMessage::TimingClock.is_clock_message());
    assert!(MidiMessage::Start.is_clock_message());
    assert!(!MidiMessage::ProgramChange { channel: 0, program: 1 }.is_clock_message());
}
