use sfu_kit::av1::Av1DdInfo;
use sfu_kit::bwe::{PacerAction, PACER_MIN_TICK_INTERVAL_MS, SUSPEND_STREAK, SUSPEND_VIDEO_BPS};
use sfu_kit::client::layer::rid_label;
use sfu_kit::client::{
    keyframe_request_due, DataChannelList, ForwardVerdict, PacerDrive, SubscriberForwarding,
    KEYFRAME_REQUEST_MIN_GAP_MS,
};
use sfu_kit::dc::ChannelConfig;
use sfu_kit::ids::SfuRid;
use sfu_kit::propagate::ClientId;
use sfu_kit::layer_selector::{BestFitSelector, LayerSelector};
use sfu_kit::registry::{
    hints_to_send, apply_pacer_action, detector_level, fanout_targets, max_layer_per_publisher,
    publisher_hint_round, FanoutEvent, PacerEvent, PublisherHint,
};
use sfu_kit::vfm::FrameMarkingInfo;

const PEER: ClientId = ClientId(7);

#[test]
fn go_audio_only_emits_audio_only_mode_true_no_suspend_change() {
    let (event, suspend) = apply_pacer_action(PacerAction::GoAudioOnly, PEER);
    assert_eq!(event, Some(PacerEvent::AudioOnlyMode { peer_id: PEER, audio_only: true }));
    assert_eq!(suspend, None);
}

#[test]
fn restore_video_emits_audio_only_mode_false_no_suspend_change() {
    let (event, suspend) = apply_pacer_action(PacerAction::RestoreVideo, PEER);
    assert_eq!(event, Some(PacerEvent::AudioOnlyMode { peer_id: PEER, audio_only: false }));
    assert_eq!(suspend, None);
}

#[test]
fn suspend_video_emits_suspend_video_true_and_suspend_change_true() {
    let (event, suspend) = apply_pacer_action(PacerAction::SuspendVideo, PEER);
    assert_eq!(event, Some(PacerEvent::SuspendVideo { peer_id: PEER, suspended: true }));
    assert_eq!(suspend, Some(true));
}

#[test]
fn restore_audio_emits_suspend_video_false_and_suspend_change_false() {
    let (event, suspend) = apply_pacer_action(PacerAction::RestoreAudio, PEER);
    assert_eq!(event, Some(PacerEvent::SuspendVideo { peer_id: PEER, suspended: false }));
    assert_eq!(suspend, Some(false));
}

#[test]
fn change_layer_and_no_change_emit_nothing() {
    let (event, suspend) = apply_pacer_action(PacerAction::ChangeLayer(SfuRid::medium()), PEER);
    assert!(event.is_none());
    assert_eq!(suspend, None);
    let (event, suspend) = apply_pacer_action(PacerAction::NoChange, PEER);
    assert!(event.is_none());
    assert_eq!(suspend, None);
}

// The pacer is advanced from a single drive site; here that shows as at most
// one advance of a subscriber's pacer per minimum tick interval, whatever the
// number of estimates offered. This crate has no build features, so no
// feature combination can add a second drive site.
#[test]
fn exactly_one_pacer_driver() {
    let mut f = SubscriberForwarding::new();
    let t0 = 1_000u64;
    let mut advances = 0;
    for step in 0..PACER_MIN_TICK_INTERVAL_MS {
        if let PacerDrive::Driven(_) = f.drive_from_estimate(Some(1_000_000), t0 + step, PACER_MIN_TICK_INTERVAL_MS) {
            advances += 1;
        }
    }
    assert_eq!(advances, 1, "one pacer advance per interval");
}

#[test]
fn min_tick_floor_prevents_burst_suspend() {
    let mut f = SubscriberForwarding::new();
    let t0 = 50_000u64;
    assert_eq!(
        f.drive_from_estimate(Some(5_000), t0, PACER_MIN_TICK_INTERVAL_MS),
        PacerDrive::Driven(PacerAction::NoChange)
    );
    assert_eq!(f.drive_from_estimate(Some(5_000), t0 + 10, PACER_MIN_TICK_INTERVAL_MS), PacerDrive::Throttled);
    assert!(!f.suspended());
    assert_eq!(
        f.drive_from_estimate(Some(5_000), t0 + PACER_MIN_TICK_INTERVAL_MS, PACER_MIN_TICK_INTERVAL_MS),
        PacerDrive::Driven(PacerAction::SuspendVideo)
    );
    assert!(f.pacer().suspended());
}

#[test]
fn first_tick_records_drive_instant() {
    let mut f = SubscriberForwarding::new();
    assert!(f.pacer_tick_ready(0, PACER_MIN_TICK_INTERVAL_MS));
    assert!(!f.pacer_tick_ready(PACER_MIN_TICK_INTERVAL_MS - 1, PACER_MIN_TICK_INTERVAL_MS));
    assert!(f.pacer_tick_ready(PACER_MIN_TICK_INTERVAL_MS, PACER_MIN_TICK_INTERVAL_MS));
}

#[test]
fn missing_estimate_leaves_pacer_alone() {
    let mut f = SubscriberForwarding::new();
    for t in 0..(SUSPEND_STREAK as u64 + 3) {
        assert_eq!(f.drive_from_estimate(None, t * 1_000, PACER_MIN_TICK_INTERVAL_MS), PacerDrive::NoEstimate);
    }
    assert!(!f.pacer().suspended());
    assert!(f.pacer_tick_ready(0, PACER_MIN_TICK_INTERVAL_MS));
}

#[test]
fn pacer_layer_change_becomes_desired_layer() {
    let mut f = SubscriberForwarding::new();
    f.note_forwarded_rid(Some(SfuRid::low()));
    for _ in 0..2 {
        assert_eq!(f.drive_pacer(800_000), PacerAction::NoChange);
    }
    assert_eq!(f.drive_pacer(800_000), PacerAction::ChangeLayer(SfuRid::high()));
    assert_eq!(f.desired_layer(), SfuRid::high());
    assert_eq!(f.chosen_rid(), None);
}

fn dd(temporal_id: u8) -> Av1DdInfo {
    // Templates 0..=2 are spatial layer 0 with temporal layer 0..=2.
    sfu_kit::av1::dependency_descriptor::parse(&[0b1100_0000 | temporal_id]).unwrap()
}

fn fm(temporal_id: u8) -> FrameMarkingInfo {
    // Start and end of frame set, temporal id in the low three bits.
    sfu_kit::vfm::frame_marking::parse(&[0b1100_0000 | temporal_id]).unwrap()
}

#[test]
fn forwarding_filter_verdicts() {
    let mut f = SubscriberForwarding::new();
    f.record_active_rid(SfuRid::low());
    f.record_active_rid(SfuRid::medium());
    f.record_active_rid(SfuRid::low());
    assert_eq!(f.active_rids(), vec![SfuRid::low(), SfuRid::medium()]);
    f.set_desired_layer(SfuRid::high());
    assert_eq!(f.forward_verdict(Some(true), Some(SfuRid::medium()), None, None), ForwardVerdict::Forward);
    assert_eq!(f.forward_verdict(Some(true), Some(SfuRid::low()), None, None), ForwardVerdict::DropLayer);
    assert_eq!(f.forward_verdict(Some(true), None, None, None), ForwardVerdict::Forward);
    f.set_max_temporal_layer(1);
    f.set_max_vfm_temporal_layer(0);
    assert_eq!(f.max_temporal_layer(), 1);
    assert_eq!(f.max_vfm_temporal_layer(), 0);
    assert_eq!(f.forward_verdict(Some(true), None, Some(dd(2)), None), ForwardVerdict::DropAv1TemporalLayer);
    assert_eq!(f.forward_verdict(Some(true), None, Some(dd(1)), Some(fm(1))), ForwardVerdict::DropVfmTemporalLayer);
    assert_eq!(f.forward_verdict(Some(true), None, Some(dd(1)), Some(fm(0))), ForwardVerdict::Forward);
    f.set_suspended(true);
    assert_eq!(f.forward_verdict(Some(true), None, None, None), ForwardVerdict::DropSuspendedVideo);
    assert_eq!(f.forward_verdict(None, None, None, None), ForwardVerdict::DropSuspendedVideo);
    assert_eq!(f.forward_verdict(Some(false), None, None, None), ForwardVerdict::Forward);
}

#[test]
fn layer_matching_and_labels() {
    assert!(sfu_kit::client::layer::matches(SfuRid::low(), None));
    assert!(sfu_kit::client::layer::matches(SfuRid::medium(), Some(SfuRid::medium())));
    assert!(!sfu_kit::client::layer::matches(SfuRid::medium(), Some(SfuRid::high())));
    assert_eq!(rid_label(SfuRid::low()), "q");
    assert_eq!(rid_label(SfuRid::medium()), "h");
    assert_eq!(rid_label(SfuRid::high()), "f");
    assert_eq!(rid_label(SfuRid::from_str("x1").unwrap()), "other");
}

#[test]
fn data_channels_register_in_order() {
    let l = DataChannelList::new().with_chat_dcs().with_voice_dc(200);
    assert_eq!(l.dc_count(), 3);
    let data = l.dc_config_for("chat-data").unwrap();
    assert_eq!((data.id(), data.ordered(), data.max_retransmits()), (4, true, None));
    let ctrl = l.dc_config_for("chat-ctrl").unwrap();
    assert_eq!((ctrl.id(), ctrl.ordered(), ctrl.max_retransmits()), (5, false, Some(0)));
    let voice = l.dc_config_for("voice").unwrap();
    assert_eq!((voice.id(), voice.ordered(), voice.max_packet_lifetime_ms()), (6, false, Some(200)));
    assert!(l.dc_config_for("missing").is_none());
    let l = l.with_extra_dc("telemetry", 20, ChannelConfig::reliable_ordered());
    assert_eq!(l.dc_count(), 4);
    assert_eq!(l.as_slice()[3].label(), "telemetry");
    assert_eq!(l.as_slice()[3].id(), 20);
}

#[test]
fn channel_config_constructors() {
    let c = ChannelConfig::unreliable_max_lifetime(150);
    assert_eq!((c.id(), c.label(), c.ordered()), (0, "", false));
    assert_eq!((c.max_packet_lifetime_ms(), c.max_retransmits()), (Some(150), None));
    let c = ChannelConfig::unreliable_max_retransmits(3);
    assert_eq!((c.max_packet_lifetime_ms(), c.max_retransmits()), (None, Some(3)));
}

#[test]
fn keyframe_requests_are_throttled_to_one_per_second() {
    assert!(keyframe_request_due(None, 0));
    assert!(!keyframe_request_due(Some(5_000), 5_000 + KEYFRAME_REQUEST_MIN_GAP_MS - 1));
    assert!(keyframe_request_due(Some(5_000), 5_000 + KEYFRAME_REQUEST_MIN_GAP_MS));
    assert!(!keyframe_request_due(Some(5_000), 4_000));
}

#[test]
fn publisher_hint_is_highest_want_per_publisher() {
    let a = ClientId(1);
    let b = ClientId(2);
    let wants = [(a, SfuRid::medium()), (b, SfuRid::low()), (a, SfuRid::high()), (a, SfuRid::low())];
    assert_eq!(max_layer_per_publisher(&wants), vec![(a, SfuRid::high()), (b, SfuRid::low())]);
    assert!(max_layer_per_publisher(&[]).is_empty());
    let odd = SfuRid::from_str("x").unwrap();
    assert_eq!(max_layer_per_publisher(&[(b, odd)]), vec![(b, odd)]);
}

#[test]
fn fanout_skips_the_origin() {
    let room = [ClientId(1), ClientId(2), ClientId(3)];
    assert_eq!(fanout_targets(FanoutEvent::MediaData { origin: ClientId(2) }, &room), vec![0, 2]);
    assert_eq!(fanout_targets(FanoutEvent::TrackOpen { origin: ClientId(1) }, &room), vec![1, 2]);
    assert_eq!(fanout_targets(FanoutEvent::ActiveSpeakerChanged { speaker: ClientId(3) }, &room), vec![0, 1]);
    assert_eq!(
        fanout_targets(FanoutEvent::KeyframeRequest { origin: ClientId(1), source: ClientId(3) }, &room),
        vec![2]
    );
    assert_eq!(
        fanout_targets(FanoutEvent::KeyframeRequest { origin: ClientId(1), source: ClientId(1) }, &room),
        Vec::<usize>::new()
    );
    assert!(fanout_targets(FanoutEvent::Local, &room).is_empty());
}

#[test]
fn detector_level_negates_and_clamps() {
    assert_eq!(detector_level(0), 0);
    assert_eq!(detector_level(-30), 30);
    assert_eq!(detector_level(-127), 127);
    assert_eq!(detector_level(-128), 127);
    assert_eq!(detector_level(5), 0);
}

#[test]
fn suspend_threshold_constant() {
    assert_eq!(SUSPEND_VIDEO_BPS, 10_000);
}

#[test]
fn data_channel_ids_are_checked() {
    let l = DataChannelList::new().with_chat_dcs();
    assert!(l.has_id(4));
    assert!(l.has_id(5));
    assert!(!l.has_id(6));
    assert!(!DataChannelList::new().has_id(0));
}

#[test]
fn publisher_hints_are_sent_only_on_change() {
    let a = ClientId(1);
    let b = ClientId(2);
    let first = max_layer_per_publisher(&[(a, SfuRid::medium()), (b, SfuRid::low())]);
    assert_eq!(hints_to_send(&[], &first), first);
    assert!(hints_to_send(&first, &first).is_empty());
    let second = max_layer_per_publisher(&[(a, SfuRid::high()), (b, SfuRid::low())]);
    assert_eq!(hints_to_send(&first, &second), vec![(a, SfuRid::high())]);
    let third = vec![(b, SfuRid::low()), (ClientId(3), SfuRid::low())];
    assert_eq!(hints_to_send(&second, &third), vec![(ClientId(3), SfuRid::low())]);
}

#[test]
fn best_fit_select_through_trait() {
    assert_eq!(BestFitSelector.select(SfuRid::high(), &[SfuRid::low(), SfuRid::medium()]), SfuRid::medium());
    assert_eq!(BestFitSelector.select(SfuRid::low(), &[SfuRid::medium(), SfuRid::high()]), SfuRid::medium());
}

#[test]
fn publisher_hint_round_flags_relays_and_remembers_maxima() {
    let direct = ClientId(1);
    let relay = ClientId(2);
    let wants = [
        (direct, SfuRid::low()),
        (relay, SfuRid::medium()),
        (direct, SfuRid::high()),
        (relay, SfuRid::low()),
    ];
    let (hints, maxima) = publisher_hint_round(&[], &wants, &[relay]);
    assert_eq!(maxima, vec![(direct, SfuRid::high()), (relay, SfuRid::medium())]);
    assert_eq!(
        hints,
        vec![
            PublisherHint { publisher: direct, max_rid: SfuRid::high(), relay: false },
            PublisherHint { publisher: relay, max_rid: SfuRid::medium(), relay: true },
        ]
    );
    let (again, same) = publisher_hint_round(&maxima, &wants, &[relay]);
    assert!(again.is_empty());
    assert_eq!(same, maxima);
    let lower = [(direct, SfuRid::low()), (relay, SfuRid::medium())];
    let (changed, next) = publisher_hint_round(&maxima, &lower, &[relay]);
    assert_eq!(changed, vec![PublisherHint { publisher: direct, max_rid: SfuRid::low(), relay: false }]);
    assert_eq!(next, vec![(direct, SfuRid::low()), (relay, SfuRid::medium())]);
}
