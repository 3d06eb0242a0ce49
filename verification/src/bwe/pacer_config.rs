//! Configurable thresholds for [`SubscriberPacer`](super::SubscriberPacer).
use vstd::prelude::*;

use super::{
    AUDIO_ONLY_BPS, HIGH_MIN_BPS, LOW_MIN_BPS, MEDIUM_MIN_BPS, SUSPEND_STREAK, SUSPEND_VIDEO_BPS,
    UPGRADE_STREAK,
};

verus! {

/// Configurable thresholds for the subscriber pacer.
///
/// All bitrate values are in bits per second. Streak counters are in ticks
/// (one tick = one call to `SubscriberPacer::update`).
#[derive(Debug, Clone, PartialEq, Eq, Structural)]
pub struct PacerConfig {
    /// Estimate below which all video forwarding is suspended. Default 10 000.
    pub suspend_video_bps: u64,
    /// Estimate below which the subscriber enters audio-only mode. Default 80 000.
    pub audio_only_bps: u64,
    /// Minimum estimate to sustain the LOW simulcast layer. Default 150 000.
    pub low_min_bps: u64,
    /// Minimum estimate to sustain the MEDIUM simulcast layer. Default 350 000.
    pub medium_min_bps: u64,
    /// Minimum estimate to sustain the HIGH simulcast layer. Default 700 000.
    pub high_min_bps: u64,
    /// Consecutive ticks below `suspend_video_bps` before suspending. Default 2.
    pub suspend_streak: u8,
    /// Consecutive ticks above the next tier required to upgrade. Default 3.
    pub upgrade_streak: u8,
}

/// Why a [`PacerConfig`] was rejected.
#[derive(Debug, Clone, Copy, PartialEq, Eq, Structural)]
pub enum PacerConfigError {
    /// `upgrade_streak == 0` would upgrade on every single tick (thrash).
    UpgradeStreakZero,
    /// `suspend_streak == 0` would suspend on the first low tick.
    SuspendStreakZero,
}

/// The default thresholds.
pub open spec fn default_pacer_config() -> PacerConfig {
    PacerConfig {
        suspend_video_bps: SUSPEND_VIDEO_BPS,
        audio_only_bps: AUDIO_ONLY_BPS,
        low_min_bps: LOW_MIN_BPS,
        medium_min_bps: MEDIUM_MIN_BPS,
        high_min_bps: HIGH_MIN_BPS,
        suspend_streak: SUSPEND_STREAK,
        upgrade_streak: UPGRADE_STREAK,
    }
}

/// A configuration the pacer accepts: both streak lengths are positive.
pub open spec fn valid_pacer_config(c: PacerConfig) -> bool {
    c.upgrade_streak > 0 && c.suspend_streak > 0
}

/// The error a configuration is rejected with, if any: a zero upgrade
/// streak is reported before a zero suspend streak.
pub open spec fn pacer_config_error(c: PacerConfig) -> Option<PacerConfigError> {
    if c.upgrade_streak == 0 {
        Some(PacerConfigError::UpgradeStreakZero)
    } else if c.suspend_streak == 0 {
        Some(PacerConfigError::SuspendStreakZero)
    } else {
        None
    }
}

impl PacerConfig {
    /// Check the configuration: `Ok` exactly when both streaks are positive.
    pub fn validate(&self) -> (r: Result<(), PacerConfigError>)
        ensures
            r is Ok <==> valid_pacer_config(*self),
            r matches Err(e) ==> pacer_config_error(*self) == Some(e),
    {
        if self.upgrade_streak == 0 {
            return Err(PacerConfigError::UpgradeStreakZero);
        }
        if self.suspend_streak == 0 {
            return Err(PacerConfigError::SuspendStreakZero);
        }
        Ok(())
    }
}

impl Default for PacerConfig {
    fn default() -> (c: Self)
        ensures
            c == default_pacer_config(),
    {
        PacerConfig {
            suspend_video_bps: SUSPEND_VIDEO_BPS,
            audio_only_bps: AUDIO_ONLY_BPS,
            low_min_bps: LOW_MIN_BPS,
            medium_min_bps: MEDIUM_MIN_BPS,
            high_min_bps: HIGH_MIN_BPS,
            suspend_streak: SUSPEND_STREAK,
            upgrade_streak: UPGRADE_STREAK,
        }
    }
}

} // verus!
