//! Properties of the pacer's transition function that hold across calls.
use vstd::prelude::*;

use super::hysteresis::{
    is_standard_layer, layer_for_bps, layer_rank, pacer_inv, pacer_next, with_state, PacerAction,
    PacerModel,
};
use crate::ids::SfuRid;

verus! {

broadcast use crate::ids::lemma_rid_view;

/// The state after `k` readings of the same estimate `bps`.
pub open spec fn pacer_run(m: PacerModel, bps: u64, k: nat) -> PacerModel
    decreases k,
{
    if k == 0 {
        m
    } else {
        pacer_next(pacer_run(m, bps, (k - 1) as nat), bps).0
    }
}

/// The action returned by the `k`-th of `k` readings of the same estimate
/// (`NoChange` for `k == 0`).
pub open spec fn pacer_run_action(m: PacerModel, bps: u64, k: nat) -> PacerAction {
    if k == 0 {
        PacerAction::NoChange
    } else {
        pacer_next(pacer_run(m, bps, (k - 1) as nat), bps).1
    }
}

/// Every transition keeps the pacer's well-formedness.
pub proof fn lemma_pacer_next_keeps_inv(m: PacerModel, bps: u64)
    requires
        pacer_inv(m),
    ensures
        pacer_inv(pacer_next(m, bps).0),
{
}

/// Each action reports exactly the change it made: `NoChange` leaves the
/// layer and both modes as they were; `ChangeLayer(t)` moves to a different
/// layer `t` with video on; `GoAudioOnly` and `RestoreVideo` switch audio-only
/// mode on and off; `SuspendVideo` and `RestoreAudio` switch suspension on
/// and off, leaving audio-only mode on.
pub proof fn lemma_action_reports_change(m: PacerModel, bps: u64)
    requires
        pacer_inv(m),
    ensures
        ({
            let (n, a) = pacer_next(m, bps);
            match a {
                PacerAction::NoChange => n.layer == m.layer && n.audio_only == m.audio_only
                    && n.suspended == m.suspended,
                PacerAction::ChangeLayer(t) => t != m.layer && n.layer == t && !m.audio_only
                    && !n.audio_only && !n.suspended,
                PacerAction::GoAudioOnly => !m.audio_only && n.audio_only && !n.suspended
                    && n.layer == m.layer,
                PacerAction::RestoreVideo => m.audio_only && !m.suspended && !n.audio_only
                    && n.layer == SfuRid::spec_low(),
                PacerAction::SuspendVideo => !m.suspended && n.suspended && n.audio_only,
                PacerAction::RestoreAudio => m.suspended && !n.suspended && n.audio_only,
            }
        }),
{
}

/// A downgrade is immediate: while video is on, a reading whose sustainable
/// layer ranks below the current one changes to that layer on this very tick.
pub proof fn lemma_downgrade_is_immediate(m: PacerModel, bps: u64)
    requires
        pacer_inv(m),
        !m.audio_only,
        bps >= m.config.suspend_video_bps,
        bps >= m.config.audio_only_bps,
        layer_rank(layer_for_bps(m.config, bps)) < layer_rank(m.layer),
    ensures
        pacer_next(m, bps).1 == PacerAction::ChangeLayer(layer_for_bps(m.config, bps)),
        pacer_next(m, bps).0.layer == layer_for_bps(m.config, bps),
        pacer_next(m, bps).0.upgrade_streak == 0,
{
}

/// An upgrade needs a run of consecutive ticks: while video is on and the
/// reading sustains a higher layer, the first `upgrade_streak - s` ticks
/// (where `s` is the streak already counted) keep the layer and report
/// `NoChange`, and the tick that completes the run changes to the higher layer.
pub proof fn lemma_upgrade_needs_streak(m: PacerModel, bps: u64, k: nat)
    requires
        pacer_inv(m),
        !m.audio_only,
        bps >= m.config.suspend_video_bps,
        bps >= m.config.audio_only_bps,
        layer_rank(layer_for_bps(m.config, bps)) > layer_rank(m.layer),
        1 <= k <= m.config.upgrade_streak - m.upgrade_streak,
    ensures
        k < m.config.upgrade_streak - m.upgrade_streak ==> pacer_run(m, bps, k) == with_state(
            m,
            m.layer,
            false,
            false,
            (m.upgrade_streak + k) as u8,
            0,
        ) && pacer_run_action(m, bps, k) == PacerAction::NoChange,
        k == m.config.upgrade_streak - m.upgrade_streak ==> pacer_run_action(m, bps, k)
            == PacerAction::ChangeLayer(layer_for_bps(m.config, bps)) && pacer_run(m, bps, k).layer
            == layer_for_bps(m.config, bps),
    decreases k,
{
    if k > 1 {
        lemma_upgrade_needs_streak(m, bps, (k - 1) as nat);
    }
}

/// Suspension is debounced: from a non-suspended state with no low ticks
/// counted, the first `suspend_streak - 1` consecutive readings below the
/// suspend threshold report `NoChange` and do not suspend; the next one
/// reports `SuspendVideo` and suspends, with audio-only mode on.
pub proof fn lemma_suspend_is_debounced(m: PacerModel, bps: u64, k: nat)
    requires
        pacer_inv(m),
        !m.suspended,
        m.suspend_streak == 0,
        bps < m.config.suspend_video_bps,
        1 <= k <= m.config.suspend_streak,
    ensures
        k < m.config.suspend_streak ==> pacer_run(m, bps, k) == with_state(
            m,
            m.layer,
            m.audio_only,
            false,
            m.upgrade_streak,
            k as u8,
        ) && pacer_run_action(m, bps, k) == PacerAction::NoChange,
        k == m.config.suspend_streak ==> pacer_run_action(m, bps, k) == PacerAction::SuspendVideo
            && pacer_run(m, bps, k).suspended && pacer_run(m, bps, k).audio_only,
    decreases k,
{
    if k > 1 {
        lemma_suspend_is_debounced(m, bps, (k - 1) as nat);
    }
}

/// A reading at or above the suspend threshold, while not suspended, clears
/// the count of low ticks.
pub proof fn lemma_good_tick_resets_suspend_streak(m: PacerModel, bps: u64)
    requires
        pacer_inv(m),
        !m.suspended,
        bps >= m.config.suspend_video_bps,
    ensures
        pacer_next(m, bps).0.suspend_streak == 0,
        !pacer_next(m, bps).0.suspended,
{
}

/// Recovery goes one step at a time: from suspension, a reading at or
/// above the audio-only threshold restores audio-only forwarding, never
/// video; from audio-only mode, readings between the suspend threshold and
/// the LOW minimum change nothing.
pub proof fn lemma_recovery_is_stepwise(m: PacerModel, bps: u64)
    requires
        pacer_inv(m),
    ensures
        m.suspended && bps >= m.config.audio_only_bps ==> pacer_next(m, bps).1
            == PacerAction::RestoreAudio && pacer_next(m, bps).0.audio_only && !pacer_next(
            m,
            bps,
        ).0.suspended,
        m.suspended && bps < m.config.audio_only_bps ==> pacer_next(m, bps) == (
            m,
            PacerAction::NoChange,
        ),
        m.audio_only && !m.suspended && m.config.suspend_video_bps <= bps
            < m.config.low_min_bps ==> pacer_next(m, bps).1 == PacerAction::NoChange
            && pacer_next(m, bps).0.audio_only,
{
}

/// The layer the pacer forwards is always one of the three standard layers,
/// and a layer change always names one of them.
pub proof fn lemma_layers_are_standard(m: PacerModel, bps: u64)
    requires
        pacer_inv(m),
    ensures
        is_standard_layer(pacer_next(m, bps).0.layer),
        pacer_next(m, bps).1 matches PacerAction::ChangeLayer(t) ==> is_standard_layer(t),
{
}

/// Entering audio-only mode is immediate and the same at every layer: while
/// video is on, a reading at or above the suspend threshold but below the
/// audio-only threshold reports `GoAudioOnly` and turns audio-only mode on
/// (the layer is kept for when video returns), whatever layer is forwarded.
pub proof fn lemma_low_reading_goes_audio_only(m: PacerModel, bps: u64)
    requires
        pacer_inv(m),
        !m.audio_only,
        !m.suspended,
        m.config.suspend_video_bps <= bps < m.config.audio_only_bps,
    ensures
        pacer_next(m, bps).1 == PacerAction::GoAudioOnly,
        pacer_next(m, bps).0.audio_only,
        !pacer_next(m, bps).0.suspended,
        pacer_next(m, bps).0.layer == m.layer,
{
}

/// No reading below the audio-only threshold ever yields a layer change: the
/// pacer never steps down to a lower layer instead of dropping video.
pub proof fn lemma_no_layer_change_below_audio_only(m: PacerModel, bps: u64)
    requires
        pacer_inv(m),
        bps < m.config.audio_only_bps,
    ensures
        !(pacer_next(m, bps).1 is ChangeLayer),
{
}

/// Video comes back at LOW: in audio-only mode (not suspended), a reading at
/// or above both the suspend threshold and the LOW minimum reports
/// `RestoreVideo`, turns audio-only mode off and forwards the LOW layer.
pub proof fn lemma_video_restores_at_low(m: PacerModel, bps: u64)
    requires
        pacer_inv(m),
        m.audio_only,
        !m.suspended,
        bps >= m.config.suspend_video_bps,
        bps >= m.config.low_min_bps,
    ensures
        pacer_next(m, bps).1 == PacerAction::RestoreVideo,
        !pacer_next(m, bps).0.audio_only,
        !pacer_next(m, bps).0.suspended,
        pacer_next(m, bps).0.layer == SfuRid::spec_low(),
{
}

/// A reading that sustains exactly the current layer, with video on, changes
/// nothing and restarts the upgrade count.
pub proof fn lemma_steady_reading_keeps_layer(m: PacerModel, bps: u64)
    requires
        pacer_inv(m),
        !m.audio_only,
        bps >= m.config.suspend_video_bps,
        bps >= m.config.audio_only_bps,
        layer_for_bps(m.config, bps) == m.layer,
    ensures
        pacer_next(m, bps).1 == PacerAction::NoChange,
        pacer_next(m, bps).0.layer == m.layer,
        !pacer_next(m, bps).0.audio_only,
        pacer_next(m, bps).0.upgrade_streak == 0,
{
}

} // verus!
