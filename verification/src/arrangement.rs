//! Song and arrangement system.
//!
//! This module provides:
//! - Parts: collections of track clip/generator states
//! - Scenes: track state snapshots with matrix triggering
//! - Song mode: ordered arrangement playback

pub mod part;
pub mod scene;
pub mod song;
