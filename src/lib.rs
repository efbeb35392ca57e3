//! Playback control for an internet radio player.
//!
//! The GUI thread drives a [`VLCMediaPlayer`] adapter: it records the station
//! to stream, asks for playback to start or stop, and moves the volume. Every
//! request that needs a native player hands out a [`WorkerStart`] ticket; the
//! thread that owns the native player runs a [`PlaybackWorker`] built from that
//! ticket and polls the adapter for what to do next.

use vstd::prelude::*;

pub mod about_window;
pub mod controls;
pub mod player;
pub mod protocol;
pub mod station;
pub mod worker;

pub use about_window::AboutWindow;
pub use controls::{volume_icon, VolumeIcon, VolumeSlider};
pub use player::{PlaybackError, VLCMediaPlayer, VolumeError, WorkerSignal, WorkerStart};
pub use station::Station;
pub use worker::{PlaybackWorker, WorkerAction, WorkerPhase};
