//! Bandwidth-adaptive layer selection and bandwidth-estimation building blocks.
//!
//! Each subscriber gets a [`SubscriberPacer`] that watches per-tick
//! bandwidth readings and picks the simulcast layer with hysteresis: a run of
//! consecutive ticks above the next tier to upgrade, an immediate downgrade,
//! and hysteretic audio-only and suspended modes.

pub mod feedback;
pub mod googcc;
pub mod hysteresis;
pub mod loss_window;
pub mod pacer_laws;
pub mod pacer_config;
pub mod send_times;
pub mod subscriber;

pub use hysteresis::{PacerAction, SubscriberPacer};
pub use pacer_config::{PacerConfig, PacerConfigError};

use vstd::prelude::*;

verus! {

/// Below this egress estimate (bits/s) the pacer enters its `suspended`
/// sub-state and emits `PacerAction::SuspendVideo`.
pub const SUSPEND_VIDEO_BPS: u64 = 10_000;

/// Below this egress estimate (bits/s) video is dropped (audio-only mode).
pub const AUDIO_ONLY_BPS: u64 = 80_000;

/// Minimum estimate (bits/s) to sustain the LOW (`q`) simulcast layer.
pub const LOW_MIN_BPS: u64 = 150_000;

/// Minimum estimate (bits/s) to sustain the MEDIUM (`h`) simulcast layer.
pub const MEDIUM_MIN_BPS: u64 = 350_000;

/// Minimum estimate (bits/s) to sustain the HIGH (`f`) simulcast layer.
pub const HIGH_MIN_BPS: u64 = 700_000;

/// Consecutive ticks below `SUSPEND_VIDEO_BPS` required before the pacer
/// enters its `suspended` sub-state: a short debounce that rejects single-tick
/// spikes without delaying the response to real congestion.
pub const SUSPEND_STREAK: u8 = 2;

/// Ticks above the next tier required before upgrading (prevents thrash).
pub const UPGRADE_STREAK: u8 = 3;

/// Minimum interval, in milliseconds, between two advances of one
/// subscriber's pacer when it is driven from forwarded media.
pub const PACER_MIN_TICK_INTERVAL_MS: u64 = 100;

} // verus!
