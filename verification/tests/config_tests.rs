//! Tests for the configuration and audio data models.

use midiseq::audio::output::AudioConfig;
use midiseq::config::{TrackState, TrackStateConfig};

#[test]
fn test_track_state() {
    let active = TrackState::Simple("active".to_string());
    let muted = TrackState::Simple("muted".to_string());
    let clip = TrackState::Clip("clip_1".to_string());

    assert!(active.is_active());
    assert!(!active.is_muted());

    assert!(!muted.is_active());
    assert!(muted.is_muted());

    assert!(clip.is_active());
    assert_eq!(clip.clip_name(), Some("clip_1"));
}

#[test]
fn test_track_state_detailed() {
    let detailed = TrackState::Detailed(TrackStateConfig {
        muted: false,
        solo: true,
        clip: Some("groove".to_string()),
        generator: None,
    });
    assert!(detailed.is_active());
    assert!(!detailed.is_muted());
    assert_eq!(detailed.clip_name(), Some("groove"));
}

#[test]
fn test_audio_config_default() {
    let config = AudioConfig::default();
    assert_eq!(config.sample_rate, 44100);
    assert_eq!(config.buffer_size, 512);
    assert_eq!(config.channels, 2);
}

#[test]
fn test_latency_calculation() {
    let config = AudioConfig { sample_rate: 44100, buffer_size: 512, channels: 2 };

    let latency_ms = (config.buffer_size as f64 / config.sample_rate as f64) * 1000.0;
    assert!((latency_ms - 11.6).abs() < 0.1); // ~11.6ms

    // The integer microsecond reading agrees.
    let micros = config.latency_micros();
    assert!((micros as f64 / 1000.0 - latency_ms).abs() < 0.01);
}
