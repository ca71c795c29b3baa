//! Tests for MIDI bindings, display state and the clock.

use midiseq::control::midi_map::{self, format_binding, note_name, MidiBinding};
use midiseq::timing::clock::{ClockState, MidiClock, TapTempo, TempoRamp};
use midiseq::ui::midi_activity::{ActivityIndicator, LearnIndicatorWidget};
use midiseq::ui::tracks::NoteDisplayWidget;
use midiseq::ui::transport::PositionWidget;
use midiseq::ui::{MidiActivityMessage, MidiActivityState, TrackUiState};

#[test]
fn test_midi_binding_note() {
    let binding = MidiBinding::note(0, 60);
    assert!(binding.matches(0, midi_map::NOTE_ON, 60));
    assert!(binding.matches(0, midi_map::NOTE_OFF, 60));
    assert!(!binding.matches(1, midi_map::NOTE_ON, 60));
    assert!(!binding.matches(0, midi_map::NOTE_ON, 61));
}

#[test]
fn test_midi_binding_cc() {
    let binding = MidiBinding::cc(0, 1);
    assert!(binding.matches(0, midi_map::CONTROL_CHANGE, 1));
    assert!(!binding.matches(0, midi_map::NOTE_ON, 1));
    assert!(!binding.matches(0, midi_map::CONTROL_CHANGE, 2));
}

#[test]
fn test_midi_binding_any_channel() {
    let binding = MidiBinding::cc_any(1);
    assert!(binding.matches(0, midi_map::CONTROL_CHANGE, 1));
    assert!(binding.matches(5, midi_map::CONTROL_CHANGE, 1));
    assert!(binding.matches(15, midi_map::CONTROL_CHANGE, 1));
}

#[test]
fn test_format_binding() {
    let binding = MidiBinding::note(0, 60);
    assert_eq!(format_binding(&binding), "Ch1 Note C4");

    let binding = MidiBinding::cc(1, 7);
    assert_eq!(format_binding(&binding), "Ch2 CC 7");

    let binding = MidiBinding::cc_any(1);
    assert_eq!(format_binding(&binding), "CC 1");
}

#[test]
fn test_note_name() {
    assert_eq!(note_name(60), "C4");
    assert_eq!(note_name(69), "A4");
    assert_eq!(note_name(0), "C-1");
    assert_eq!(note_name(127), "G9");
}

#[test]
fn test_midi_activity_message() {
    let msg = MidiActivityMessage::note_on(1, 60, 100);
    assert_eq!(msg.message_type, "Note On");
    assert_eq!(msg.channel, 1);
    assert!(msg.data.contains("C4"));
}

#[test]
fn test_midi_activity_state() {
    let mut state = MidiActivityState::new();
    assert!(state.input_messages.is_empty());

    state.add_input(MidiActivityMessage::note_on(1, 60, 100));
    assert_eq!(state.input_messages.len(), 1);

    state.clear();
    assert!(state.input_messages.is_empty());
}

#[test]
fn test_track_ui_state() {
    let track = TrackUiState::new(0, "Bass".to_string());
    assert_eq!(track.name, "Bass");
    assert_eq!(track.index, 0);
    assert_eq!(track.state, midiseq::sequencer::track::TrackState::Active);
}

#[test]
fn test_learn_indicator() {
    let widget = LearnIndicatorWidget::new(true);
    assert!(widget.active);
    assert!(widget.last_message.is_none());

    let widget = widget.last_message("CC 1".to_string());
    assert_eq!(widget.last_message, Some("CC 1".to_string()));
}

#[test]
fn test_activity_indicator() {
    let mut indicator = ActivityIndicator::new("IN".to_string());
    assert!(!indicator.is_active());

    indicator.trigger();
    assert!(indicator.is_active());
}

#[test]
fn test_note_display_widget() {
    let notes = vec![60, 64, 67]; // C, E, G
    let widget = NoteDisplayWidget::new(notes);
    assert_eq!(widget.range, (36, 96));

    let widget = widget.range(48, 72);
    assert_eq!(widget.range, (48, 72));
}

#[test]
fn test_position_from_ticks() {
    // First beat of first bar
    let pos = PositionWidget::from_ticks(0, 24, 4);
    assert_eq!(pos.bar, 1);
    assert_eq!(pos.beat, 1);
    assert_eq!(pos.tick, 0);

    // Second beat of first bar
    let pos = PositionWidget::from_ticks(24, 24, 4);
    assert_eq!(pos.bar, 1);
    assert_eq!(pos.beat, 2);
    assert_eq!(pos.tick, 0);

    // First beat of second bar
    let pos = PositionWidget::from_ticks(96, 24, 4);
    assert_eq!(pos.bar, 2);
    assert_eq!(pos.beat, 1);
    assert_eq!(pos.tick, 0);

    // Mid-tick
    let pos = PositionWidget::from_ticks(110, 24, 4);
    assert_eq!(pos.bar, 2);
    assert_eq!(pos.beat, 1);
    assert_eq!(pos.tick, 14);
}

#[test]
fn test_clock_creation() {
    let clock = MidiClock::new(120_000);
    assert_eq!(clock.bpm(0), 120_000);
    assert_eq!(clock.state(), ClockState::Stopped);
    assert_eq!(clock.pulse(), 0);
    assert_eq!(clock.beat(), 0);
}

#[test]
fn test_clock_bpm_clamping() {
    let clock = MidiClock::new(10_000); // Below minimum
    assert_eq!(clock.bpm(0), 20_000);

    let clock = MidiClock::new(500_000); // Above maximum
    assert_eq!(clock.bpm(0), 300_000);
}

#[test]
fn test_pulse_interval() {
    let clock = MidiClock::new(120_000);
    // At 120 BPM and 24 PPQN: 60s / (120 * 24) = 20,833 microseconds
    assert_eq!(clock.pulse_interval_micros(0), 20_833);
}

#[test]
fn test_clock_start_stop() {
    let mut clock = MidiClock::new(120_000);

    let start_msg = clock.start(0);
    assert_eq!(start_msg, [midiseq::midi::messages::START]);
    assert_eq!(clock.state(), ClockState::Running);

    let stop_msg = clock.stop();
    assert_eq!(stop_msg, [midiseq::midi::messages::STOP]);
    assert_eq!(clock.state(), ClockState::Stopped);
}

#[test]
fn test_clock_pause_continue() {
    let mut clock = MidiClock::new(120_000);

    clock.start(0);
    let pause_msg = clock.pause();
    assert_eq!(pause_msg, [midiseq::midi::messages::STOP]);
    assert_eq!(clock.state(), ClockState::Paused);

    let continue_msg = clock.continue_playback(1_000);
    assert_eq!(continue_msg, [midiseq::midi::messages::CONTINUE]);
    assert_eq!(clock.state(), ClockState::Running);
}

#[test]
fn test_clock_pulses_advance() {
    let mut clock = MidiClock::new(120_000);
    clock.start(0);
    // Nothing is due before a pulse interval has passed.
    assert!(clock.tick(1_000).is_none());
    // A whole interval later, a clock pulse is emitted.
    let msg = clock.tick(20_833);
    assert_eq!(msg, Some([midiseq::midi::messages::TIMING_CLOCK]));
    assert_eq!(clock.pulse(), 1);
    // 24 pulses wrap into the next beat.
    let mut now = 20_833u64;
    for _ in 0..23 {
        now += 20_833;
        assert!(clock.tick(now).is_some());
    }
    assert_eq!(clock.beat(), 1);
    assert_eq!(clock.pulse(), 0);
}

#[test]
fn test_tap_tempo_even_taps() {
    let mut tap = TapTempo::new(4, 2000);
    // First tap - no tempo yet
    assert!(tap.tap(0).is_none());
    // Taps every 500 ms read as 120 BPM exactly.
    assert_eq!(tap.tap(500), Some(120_000));
    assert_eq!(tap.tap(1000), Some(120_000));
    assert_eq!(tap.tap(1500), Some(120_000));
}

#[test]
fn test_tap_tempo_stale_resets() {
    let mut tap = TapTempo::new(4, 2000);
    assert!(tap.tap(0).is_none());
    // A gap beyond the timeout starts the ring over.
    assert!(tap.tap(10_000).is_none());
    assert_eq!(tap.tap(10_500), Some(120_000));
}

#[test]
fn test_tempo_ramp_interpolation() {
    let ramp = TempoRamp {
        from_milli_bpm: 100_000,
        to_milli_bpm: 140_000,
        duration_micros: 1_000_000,
        start_micros: 0,
    };
    assert_eq!(ramp.current_tempo(0), 100_000);
    assert_eq!(ramp.current_tempo(500_000), 120_000);
    assert!(!ramp.is_complete(999_999));
    assert!(ramp.is_complete(1_000_000));
    assert_eq!(ramp.current_tempo(2_000_000), 140_000);
}

#[test]
fn test_nudge_bpm() {
    let mut clock = MidiClock::new(120_000);
    clock.nudge_bpm(5_000, 0);
    assert_eq!(clock.bpm(0), 125_000);
    clock.nudge_bpm(-10_000, 0);
    assert_eq!(clock.bpm(0), 115_000);
}
