//! Per-subscriber hysteretic layer pacer.
use vstd::prelude::*;

use super::pacer_config::{
    default_pacer_config, pacer_config_error, valid_pacer_config, PacerConfig, PacerConfigError,
};
use crate::ids::SfuRid;

verus! {

broadcast use crate::ids::lemma_rid_view;

/// Action returned by `SubscriberPacer::update`.
#[must_use]
#[derive(Debug, Clone, Copy, PartialEq, Eq, Structural)]
#[non_exhaustive]
pub enum PacerAction {
    /// No layer change.
    NoChange,
    /// Switch to this simulcast layer immediately.
    ChangeLayer(SfuRid),
    /// The estimate fell below the audio-only threshold: stop forwarding video.
    GoAudioOnly,
    /// The estimate recovered: resume video forwarding.
    RestoreVideo,
    /// The estimate fell below the suspend-video threshold: stop forwarding
    /// all video, including the audio-only continuation. Audio keeps flowing.
    SuspendVideo,
    /// The estimate recovered above the audio-only threshold while suspended:
    /// resume audio-only forwarding (full video needs `RestoreVideo` later).
    RestoreAudio,
}

/// The state of a pacer, as the transition function sees it.
#[derive(Debug, Clone, PartialEq, Eq, Structural)]
pub struct PacerModel {
    /// The layer currently forwarded.
    pub layer: SfuRid,
    /// Video is dropped (audio-only mode).
    pub audio_only: bool,
    /// All video is suspended; implies `audio_only`.
    pub suspended: bool,
    /// Consecutive ticks seen above the next tier.
    pub upgrade_streak: u8,
    /// Consecutive ticks seen below the suspend threshold.
    pub suspend_streak: u8,
    /// The thresholds.
    pub config: PacerConfig,
}

/// Rank of a standard layer: LOW 0, MEDIUM 1, HIGH 2 (3 for any other).
pub open spec fn layer_rank(r: SfuRid) -> int {
    if r == SfuRid::spec_low() {
        0
    } else if r == SfuRid::spec_medium() {
        1
    } else if r == SfuRid::spec_high() {
        2
    } else {
        3
    }
}

/// One of the three standard layers.
pub open spec fn is_standard_layer(r: SfuRid) -> bool {
    layer_rank(r) < 3
}

/// The layer a given estimate can sustain under `c`.
pub open spec fn layer_for_bps(c: PacerConfig, bps: u64) -> SfuRid {
    if bps >= c.high_min_bps {
        SfuRid::spec_high()
    } else if bps >= c.medium_min_bps {
        SfuRid::spec_medium()
    } else {
        SfuRid::spec_low()
    }
}

/// `x + 1`, saturating at 255.
pub open spec fn sat_inc(x: u8) -> u8 {
    if x == 255 {
        255
    } else {
        (x + 1) as u8
    }
}

/// What the pacer's well-formed states satisfy: a valid configuration, a
/// standard layer, `suspended` only while audio-only, and both streaks below
/// the length that would have fired them.
pub open spec fn pacer_inv(m: PacerModel) -> bool {
    &&& valid_pacer_config(m.config)
    &&& is_standard_layer(m.layer)
    &&& m.suspended ==> m.audio_only
    &&& m.upgrade_streak < m.config.upgrade_streak
    &&& m.suspend_streak < m.config.suspend_streak
}

/// The state a fresh pacer starts in: LOW layer, video on, no streaks.
pub open spec fn initial_pacer(config: PacerConfig) -> PacerModel {
    PacerModel {
        layer: SfuRid::spec_low(),
        audio_only: false,
        suspended: false,
        upgrade_streak: 0,
        suspend_streak: 0,
        config,
    }
}

/// `m` with the given flags, layer and streaks.
pub open spec fn with_state(
    m: PacerModel,
    layer: SfuRid,
    audio_only: bool,
    suspended: bool,
    upgrade_streak: u8,
    suspend_streak: u8,
) -> PacerModel {
    PacerModel { layer, audio_only, suspended, upgrade_streak, suspend_streak, config: m.config }
}

/// The transition of the pacer on one estimate reading `bps`.
///
/// - Suspended: stay until `bps >= audio_only_bps`, then `RestoreAudio` into
///   audio-only.
/// - Below `suspend_video_bps`: count the tick; `SuspendVideo` once
///   `suspend_streak` consecutive ticks were seen. Any other tick clears that count.
/// - Audio-only: `RestoreVideo` (at LOW) once `bps >= low_min_bps`.
/// - Below `audio_only_bps`: `GoAudioOnly`.
/// - Otherwise move towards the layer `bps` sustains: down at once, up only
///   after `upgrade_streak` consecutive ticks above the current layer.
pub open spec fn pacer_next(m: PacerModel, bps: u64) -> (PacerModel, PacerAction) {
    let c = m.config;
    if m.suspended {
        if bps >= c.audio_only_bps {
            (with_state(m, m.layer, true, false, 0, 0), PacerAction::RestoreAudio)
        } else {
            (m, PacerAction::NoChange)
        }
    } else if bps < c.suspend_video_bps {
        let st = sat_inc(m.suspend_streak);
        if st >= c.suspend_streak {
            (with_state(m, m.layer, true, true, 0, 0), PacerAction::SuspendVideo)
        } else {
            (with_state(m, m.layer, m.audio_only, false, m.upgrade_streak, st), PacerAction::NoChange)
        }
    } else if m.audio_only {
        if bps >= c.low_min_bps {
            (with_state(m, SfuRid::spec_low(), false, false, 0, 0), PacerAction::RestoreVideo)
        } else {
            (with_state(m, m.layer, true, false, m.upgrade_streak, 0), PacerAction::NoChange)
        }
    } else if bps < c.audio_only_bps {
        (with_state(m, m.layer, true, false, 0, 0), PacerAction::GoAudioOnly)
    } else {
        let t = layer_for_bps(c, bps);
        if layer_rank(t) < layer_rank(m.layer) {
            (with_state(m, t, false, false, 0, 0), PacerAction::ChangeLayer(t))
        } else if layer_rank(t) > layer_rank(m.layer) {
            let u = sat_inc(m.upgrade_streak);
            if u >= c.upgrade_streak {
                (with_state(m, t, false, false, 0, 0), PacerAction::ChangeLayer(t))
            } else {
                (with_state(m, m.layer, false, false, u, 0), PacerAction::NoChange)
            }
        } else {
            (with_state(m, m.layer, false, false, 0, 0), PacerAction::NoChange)
        }
    }
}

/// The mutable part of a pacer's state.
#[derive(Debug, Clone, Copy)]
struct PacerCore {
    current_layer: SfuRid,
    audio_only: bool,
    suspended: bool,
    upgrade_streak: u8,
    suspend_streak: u8,
}

/// The model of a core under `config`.
spec fn core_model(s: PacerCore, config: PacerConfig) -> PacerModel {
    PacerModel {
        layer: s.current_layer,
        audio_only: s.audio_only,
        suspended: s.suspended,
        upgrade_streak: s.upgrade_streak,
        suspend_streak: s.suspend_streak,
        config,
    }
}

/// Per-subscriber hysteretic layer selector.
///
/// Feed each bandwidth reading via [`Self::update`]; act on the returned
/// [`PacerAction`].
#[derive(Debug)]
pub struct SubscriberPacer {
    state: PacerCore,
    config: PacerConfig,
}

impl View for SubscriberPacer {
    type V = PacerModel;

    closed spec fn view(&self) -> PacerModel {
        core_model(self.state, self.config)
    }
}

/// The core a fresh pacer starts with.
fn initial_core() -> (s: PacerCore)
    ensures
        s.current_layer == SfuRid::spec_low(),
        !s.audio_only,
        !s.suspended,
        s.upgrade_streak == 0,
        s.suspend_streak == 0,
{
    PacerCore {
        current_layer: SfuRid::low(),
        audio_only: false,
        suspended: false,
        upgrade_streak: 0,
        suspend_streak: 0,
    }
}

impl SubscriberPacer {
    /// Well-formedness of every pacer value.
    #[verifier::type_invariant]
    spec fn well_formed(self) -> bool {
        pacer_inv(self@)
    }

    /// A pacer with the default thresholds, at LOW with video on.
    pub fn new() -> (p: Self)
        ensures
            p@ == initial_pacer(default_pacer_config()),
    {
        Self::with_config(PacerConfig::default())
    }

    /// A pacer with custom thresholds, at LOW with video on.
    ///
    /// The configuration must be valid (see [`Self::try_with_config`] for the
    /// non-failing counterpart).
    pub fn with_config(config: PacerConfig) -> (p: Self)
        requires
            valid_pacer_config(config),
        ensures
            p@ == initial_pacer(config),
    {
        match Self::try_with_config(config) {
            Ok(p) => p,
            Err(_) => {
                proof {
                    assert(false);
                }
                SubscriberPacer { state: initial_core(), config: PacerConfig::default() }
            },
        }
    }

    /// A pacer with custom thresholds, or the reason they are invalid.
    pub fn try_with_config(config: PacerConfig) -> (r: Result<Self, PacerConfigError>)
        ensures
            r is Ok <==> valid_pacer_config(config),
            r matches Ok(p) ==> p@ == initial_pacer(config),
            r matches Err(e) ==> pacer_config_error(config) == Some(e),
    {
        match config.validate() {
            Err(e) => Err(e),
            Ok(()) => Ok(SubscriberPacer { state: initial_core(), config }),
        }
    }

    /// Feed a new egress bandwidth reading; returns the action to take.
    pub fn update(&mut self, bps: u64) -> (action: PacerAction)
        ensures
            (final(self)@, action) == pacer_next(old(self)@, bps),
            pacer_inv(old(self)@),
            pacer_inv(final(self)@),
    {
        proof {
            use_type_invariant(&*self);
        }
        let mut st = self.state;
        // Suspended: stay suspended until the estimate crosses the
        // audio-only threshold upward; that lands in audio-only mode.
        if st.suspended {
            if bps >= self.config.audio_only_bps {
                st.suspended = false;
                st.audio_only = true;
                st.upgrade_streak = 0;
                st.suspend_streak = 0;
                self.state = st;
                return PacerAction::RestoreAudio;
            }
            return PacerAction::NoChange;
        }
        // Debounced suspend entry: a run of consecutive low ticks is needed.
        if bps < self.config.suspend_video_bps {
            let n = if st.suspend_streak == 255 {
                255
            } else {
                st.suspend_streak + 1
            };
            if n >= self.config.suspend_streak {
                st.suspended = true;
                st.audio_only = true;
                st.upgrade_streak = 0;
                st.suspend_streak = 0;
                self.state = st;
                return PacerAction::SuspendVideo;
            }
            st.suspend_streak = n;
            self.state = st;
            return PacerAction::NoChange;
        }
        // At or above the suspend threshold: the suspend streak is broken.
        // Every branch below relies on this reset.
        st.suspend_streak = 0;
        // Audio-only mode: enter below the audio-only threshold, leave only
        // above the LOW layer minimum.
        if st.audio_only {
            if bps >= self.config.low_min_bps {
                st.audio_only = false;
                st.current_layer = SfuRid::low();
                st.upgrade_streak = 0;
                self.state = st;
                return PacerAction::RestoreVideo;
            }
            self.state = st;
            return PacerAction::NoChange;
        }
        if bps < self.config.audio_only_bps {
            st.audio_only = true;
            st.upgrade_streak = 0;
            self.state = st;
            return PacerAction::GoAudioOnly;
        }
        let target = self.layer_for_bps(bps);
        let tr = rank(target);
        let cr = rank(st.current_layer);
        // Downgrade: immediate, and the upgrade streak restarts.
        if tr < cr {
            st.current_layer = target;
            st.upgrade_streak = 0;
            self.state = st;
            return PacerAction::ChangeLayer(target);
        }
        // Upgrade: only after a run of consecutive ticks above the next tier.
        if tr > cr {
            let u = if st.upgrade_streak == 255 {
                255
            } else {
                st.upgrade_streak + 1
            };
            if u >= self.config.upgrade_streak {
                st.current_layer = target;
                st.upgrade_streak = 0;
                self.state = st;
                return PacerAction::ChangeLayer(target);
            }
            st.upgrade_streak = u;
        } else {
            // Already at the target layer: the streak restarts.
            st.upgrade_streak = 0;
        }
        self.state = st;
        PacerAction::NoChange
    }

    /// The layer an estimate can sustain under this pacer's thresholds.
    fn layer_for_bps(&self, bps: u64) -> (r: SfuRid)
        ensures
            r == layer_for_bps(self.config, bps),
    {
        if bps >= self.config.high_min_bps {
            SfuRid::high()
        } else if bps >= self.config.medium_min_bps {
            SfuRid::medium()
        } else {
            SfuRid::low()
        }
    }

    /// The layer currently forwarded.
    pub fn layer(&self) -> (r: SfuRid)
        ensures
            r == self@.layer,
    {
        self.state.current_layer
    }

    /// Whether video is currently dropped (audio-only mode).
    pub fn audio_only(&self) -> (r: bool)
        ensures
            r == self@.audio_only,
    {
        self.state.audio_only
    }

    /// Whether all video is currently suspended.
    pub fn suspended(&self) -> (r: bool)
        ensures
            r == self@.suspended,
    {
        self.state.suspended
    }
}

impl Default for SubscriberPacer {
    fn default() -> (p: Self)
        ensures
            p@ == initial_pacer(default_pacer_config()),
    {
        Self::new()
    }
}

/// Rank of a standard layer: LOW 0, MEDIUM 1, HIGH 2.
fn rank(r: SfuRid) -> (k: u8)
    requires
        is_standard_layer(r),
    ensures
        k == layer_rank(r),
{
    if r == SfuRid::low() {
        0
    } else if r == SfuRid::medium() {
        1
    } else {
        2
    }
}

} // verus!
