//! Tests for parts, scenes and song-mode playback.

use midiseq::arrangement::part::{Part, PartManager, PartTransition, TrackClipState};
use midiseq::arrangement::scene::{Scene as ArrScene, SceneLaunchMode, SceneManager as ArrSceneManager, SceneSlot};
use midiseq::arrangement::song::{LoopRegion, Song, SongPlayer, SongMode, SongPosition, SongSection};
use midiseq::sequencer::trigger::{Scene, SceneManager, TriggerQueue};
use midiseq::sequencer::SequencerTiming;

#[test]
fn test_song_position() {
    let pos = SongPosition::new(2, 3, 1, 12);
    assert_eq!(pos.format(), "S3:4.2.12");

    let section_lengths = vec![4, 8, 8];
    let ticks = pos.to_ticks(24, 4, &section_lengths);
    // Section 0: 4 bars = 4 * 4 * 24 = 384
    // Section 1: 8 bars = 8 * 4 * 24 = 768
    // Current: 3 bars + 1 beat + 12 ticks = 3*96 + 24 + 12 = 324
    assert_eq!(ticks, 384 + 768 + 324);
}

#[test]
fn test_loop_region_done() {
    let unlimited = LoopRegion::new(1, 2);
    assert!(!unlimited.is_done());

    let mut limited = LoopRegion::with_count(1, 2, 2);
    assert!(!limited.is_done());
    limited.current_repeat = 2;
    assert!(limited.is_done());
}

#[test]
fn test_song_sections_and_position() {
    let mut song = Song::new("Test".to_string());
    song.add_section(SongSection::new("A".to_string(), 4));
    song.add_section(SongSection::new("B".to_string(), 4));
    song.add_section(SongSection::new("C".to_string(), 4));

    assert_eq!(song.section_count(), 3);
    assert_eq!(song.total_bars(), 12);
    assert_eq!(song.get_section(1).unwrap().part_name, "B");

    // Tick 400 lies just past the 384 ticks of section A.
    let pos = song.position_from_tick(400, 24);
    assert_eq!(pos.section, 1);
    assert_eq!(pos.bar, 0);
    assert_eq!(pos.beat, 0);
    assert_eq!(pos.tick, 16);
}

#[test]
fn test_song_player_basic() {
    let mut player = SongPlayer::new(24);

    let mut song = Song::new("Test".to_string());
    song.add_section(SongSection::new("A".to_string(), 2));
    song.add_section(SongSection::new("B".to_string(), 2));

    player.load(song);
    assert_eq!(player.mode(), SongMode::Stopped);

    player.play();
    assert_eq!(player.mode(), SongMode::Playing);

    player.pause();
    assert_eq!(player.mode(), SongMode::Stopped);

    player.resume();
    assert_eq!(player.mode(), SongMode::Playing);

    player.stop();
    assert_eq!(player.mode(), SongMode::Stopped);
    assert_eq!(player.position_ticks(), 0);
}

#[test]
fn test_song_player_section_change() {
    let mut player = SongPlayer::new(24);

    let mut song = Song::new("Test".to_string());
    song.add_section(SongSection::new("A".to_string(), 1)); // 1 bar = 96 ticks
    song.add_section(SongSection::new("B".to_string(), 1));

    player.load(song);
    player.play();

    assert_eq!(player.current_section(), 0);

    // Move past section A
    let section_idx = player.update(100);
    assert_eq!(section_idx, Some(1));
    assert_eq!(player.current_section(), 1);
}

#[test]
fn test_part_creation() {
    let part = Part::new("Intro".to_string());
    assert_eq!(part.name, "Intro");
    assert!(part.track_states.is_empty());
}

#[test]
fn test_part_track_states() {
    let mut part = Part::new("Verse".to_string());
    part.set_track_state(0, TrackClipState::Clip(0));
    part.set_track_state(1, TrackClipState::Generator("arpeggio".to_string()));
    part.set_track_state(2, TrackClipState::Stop);

    assert_eq!(part.track_state(0), TrackClipState::Clip(0));
    assert_eq!(part.track_state(1), TrackClipState::Generator("arpeggio".to_string()));
    assert_eq!(part.track_state(2), TrackClipState::Stop);
    assert_eq!(part.track_state(3), TrackClipState::Hold);
}

#[test]
fn test_part_quantized_transition() {
    let mut manager = PartManager::new();

    let mut part = Part::new("Part B".to_string());
    part.transition = PartTransition::NextBar;
    manager.add_part(part);

    // Trigger mid-bar
    assert!(manager.trigger_part("Part B", 50, 24, 4));

    // Should be pending, not immediate
    assert!(manager.current_part().is_none());
    let pending = manager.pending_transition().unwrap();
    assert_eq!(pending.target, "Part B");
    assert_eq!(pending.scheduled_tick, 96); // Next bar at tick 96

    // Update before the transition
    assert!(manager.update(50).is_none());
    assert!(manager.pending_transition().is_some());

    // Update at the transition
    assert!(manager.update(96).is_some());
    assert_eq!(manager.current_part(), Some("Part B"));
    assert!(manager.pending_transition().is_none());
}

#[test]
fn test_part_transition_timing() {
    let manager = PartManager::new();

    // At a boundary, NextBeat and NextBar land now
    assert_eq!(manager.calculate_transition_tick(0, PartTransition::NextBeat, 24, 4), 0);
    assert_eq!(manager.calculate_transition_tick(0, PartTransition::NextBar, 24, 4), 0);

    // Mid-beat and mid-bar
    assert_eq!(manager.calculate_transition_tick(10, PartTransition::NextBeat, 24, 4), 24);
    assert_eq!(manager.calculate_transition_tick(50, PartTransition::NextBar, 24, 4), 96);

    // Whole beats and bars ahead
    assert_eq!(manager.calculate_transition_tick(100, PartTransition::Beats(2), 24, 4), 148);
    assert_eq!(manager.calculate_transition_tick(100, PartTransition::Bars(2), 24, 4), 292);
}

#[test]
fn test_part_navigation() {
    let mut manager = PartManager::new();
    manager.add_part(Part::new("A".to_string()));
    manager.add_part(Part::new("B".to_string()));
    manager.add_part(Part::new("C".to_string()));

    // No current part
    assert_eq!(manager.next_part(), Some("A"));
    assert_eq!(manager.prev_part(), Some("C"));
}

#[test]
fn test_scene_slots() {
    let mut scene = ArrScene::new("Row".to_string());
    scene.set_slot(0, SceneSlot::Clip(2));
    scene.set_slot(2, SceneSlot::Stop);
    assert_eq!(scene.slot(0), SceneSlot::Clip(2));
    assert_eq!(scene.slot(1), SceneSlot::Empty);
    assert_eq!(scene.slot(2), SceneSlot::Stop);
    assert_eq!(scene.slot(9), SceneSlot::Empty);
}

#[test]
fn test_scene_manager_launch() {
    let mut manager = ArrSceneManager::new();
    let scene = ArrScene::new("Row".to_string());
    let idx = manager.add_scene(scene);
    assert_eq!(idx, 0);

    // A bar-quantized launch from mid-bar queues and lands at the bar.
    assert!(manager.launch_scene(0, 50, 24, 4));
    assert!(manager.current_scene().is_none());
    assert!(manager.pending_launch().is_some());
    assert_eq!(manager.update(95), None);
    assert_eq!(manager.update(96), Some(0));
    assert_eq!(manager.current_scene(), Some(0));
}

#[test]
fn test_trigger_scene_rows() {
    let timing = SequencerTiming::default();
    let mut queue = TriggerQueue::new();
    let mut manager = SceneManager::new();

    let mut scene1 = Scene::new("Intro".to_string(), 2);
    scene1.set_clip(0, Some(0));
    let mut scene2 = Scene::new("Verse".to_string(), 2);
    scene2.set_clip(0, Some(1));

    manager.add_scene(scene1);
    manager.add_scene(scene2);

    manager.trigger_scene(0, &mut queue, &timing);
    assert_eq!(manager.current_scene(), Some(0));
    assert_eq!(queue.len(), 2); // One trigger per track

    queue.clear();
    manager.trigger_next(&mut queue, &timing);
    assert_eq!(manager.current_scene(), Some(1));
}

#[test]
fn test_part_manager_update_commits_due_transition() {
    let mut manager = PartManager::new();
    manager.add_part(Part::new("verse".to_string()));
    let mut chorus = Part::new("chorus".to_string());
    chorus.transition = PartTransition::NextBar;
    manager.add_part(chorus);

    // Away from a bar boundary the transition is queued, not taken.
    assert!(manager.trigger_part("chorus", 10, 24, 4));
    assert_eq!(manager.current_part(), None);

    // Before the scheduled tick nothing commits.
    assert_eq!(manager.update(50), None);
    // At the next bar (tick 96) the transition commits.
    assert_eq!(manager.update(96), Some(1));
    assert_eq!(manager.current_part(), Some("chorus"));
    // A second update does nothing more.
    assert_eq!(manager.update(200), None);
}

#[test]
fn test_scene_manager_update_commits_due_launch() {
    let mut manager = ArrSceneManager::new();
    let mut a = ArrScene::new("A".to_string());
    a.launch_mode = SceneLaunchMode::Bar;
    manager.add_scene(a);

    // Launching off a bar boundary leaves the scene pending.
    assert!(manager.launch_scene(0, 10, 24, 4));
    assert_eq!(manager.current_scene(), None);

    assert_eq!(manager.update(50), None);
    assert_eq!(manager.update(96), Some(0));
    assert_eq!(manager.current_scene(), Some(0));
}
