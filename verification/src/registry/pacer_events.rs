//! Turning pacer actions into room events.
use vstd::prelude::*;

use crate::bwe::hysteresis::PacerAction;
use crate::propagate::ClientId;

verus! {

/// An event a pacer action announces to the application.
#[derive(Debug, Clone, Copy, PartialEq, Eq, Structural)]
pub enum PacerEvent {
    /// The subscriber entered (`true`) or left (`false`) audio-only mode.
    AudioOnlyMode {
        /// The subscriber.
        peer_id: ClientId,
        /// `true` = entered audio-only; `false` = video restored.
        audio_only: bool,
    },
    /// The subscriber's video was suspended (`true`) or audio-only
    /// forwarding resumed (`false`).
    SuspendVideo {
        /// The subscriber.
        peer_id: ClientId,
        /// `true` = suspended; `false` = resumed.
        suspended: bool,
    },
}

/// What an action announces, and the suspended flag it sets (if any):
/// audio-only entry/exit announce `AudioOnlyMode` and leave the flag;
/// suspension entry/exit announce `SuspendVideo` and set the flag; layer
/// changes and no-change announce nothing.
pub open spec fn pacer_action_effect(action: PacerAction, peer_id: ClientId) -> (
    Option<PacerEvent>,
    Option<bool>,
) {
    match action {
        PacerAction::GoAudioOnly => (
            Some(PacerEvent::AudioOnlyMode { peer_id, audio_only: true }),
            None,
        ),
        PacerAction::RestoreVideo => (
            Some(PacerEvent::AudioOnlyMode { peer_id, audio_only: false }),
            None,
        ),
        PacerAction::SuspendVideo => (
            Some(PacerEvent::SuspendVideo { peer_id, suspended: true }),
            Some(true),
        ),
        PacerAction::RestoreAudio => (
            Some(PacerEvent::SuspendVideo { peer_id, suspended: false }),
            Some(false),
        ),
        PacerAction::ChangeLayer(_) | PacerAction::NoChange => (None, None),
    }
}

/// Pure dispatch on a pacer action: the event to enqueue (if any) and the
/// value the subscriber's `suspended` flag must take (if it changes).
pub fn apply_pacer_action(action: PacerAction, peer_id: ClientId) -> (r: (
    Option<PacerEvent>,
    Option<bool>,
))
    ensures
        r == pacer_action_effect(action, peer_id),
{
    match action {
        PacerAction::GoAudioOnly => (
            Some(PacerEvent::AudioOnlyMode { peer_id, audio_only: true }),
            None,
        ),
        PacerAction::RestoreVideo => (
            Some(PacerEvent::AudioOnlyMode { peer_id, audio_only: false }),
            None,
        ),
        PacerAction::SuspendVideo => (
            Some(PacerEvent::SuspendVideo { peer_id, suspended: true }),
            Some(true),
        ),
        PacerAction::RestoreAudio => (
            Some(PacerEvent::SuspendVideo { peer_id, suspended: false }),
            Some(false),
        ),
        PacerAction::ChangeLayer(_) | PacerAction::NoChange => (None, None),
    }
}

} // verus!
