use sfu_kit::bwe::{
    PacerAction, PacerConfig, PacerConfigError, SubscriberPacer, AUDIO_ONLY_BPS, HIGH_MIN_BPS,
    LOW_MIN_BPS, MEDIUM_MIN_BPS, SUSPEND_STREAK, SUSPEND_VIDEO_BPS, UPGRADE_STREAK,
};
use sfu_kit::ids::SfuRid;

fn pump(p: &mut SubscriberPacer, bps: u64, n: u8) -> PacerAction {
    let mut last = PacerAction::NoChange;
    for _ in 0..n {
        last = p.update(bps);
    }
    last
}

#[test]
fn starts_at_low() {
    let p = SubscriberPacer::new();
    assert_eq!(p.layer(), SfuRid::low());
    assert!(!p.audio_only());
}

#[test]
fn upgrade_requires_3_consecutive_ticks() {
    let mut p = SubscriberPacer::new();
    let bps = MEDIUM_MIN_BPS + 1_000;
    let _ = pump(&mut p, bps, 2);
    assert_eq!(p.layer(), SfuRid::low(), "should not upgrade after 2 ticks");
    let a = p.update(bps);
    assert_eq!(a, PacerAction::ChangeLayer(SfuRid::medium()));
    assert_eq!(p.layer(), SfuRid::medium());
}

#[test]
fn downgrade_is_immediate() {
    let mut p = SubscriberPacer::new();
    let _ = pump(&mut p, HIGH_MIN_BPS + 100_000, 6);
    assert_eq!(p.layer(), SfuRid::high());
    let a = p.update(MEDIUM_MIN_BPS - 10_000);
    assert_eq!(a, PacerAction::ChangeLayer(SfuRid::low()));
    assert_eq!(p.layer(), SfuRid::low());
}

#[test]
fn streak_resets_on_interruption() {
    let mut p = SubscriberPacer::new();
    let hi = MEDIUM_MIN_BPS + 1_000;
    let lo = LOW_MIN_BPS + 1_000;
    let _ = p.update(hi);
    let _ = p.update(hi);
    let _ = p.update(lo);
    let _ = p.update(hi);
    let _ = p.update(hi);
    assert_eq!(p.layer(), SfuRid::low(), "should NOT have upgraded --- streak reset");
}

#[test]
fn audio_only_below_threshold() {
    let mut p = SubscriberPacer::new();
    let a = p.update(AUDIO_ONLY_BPS - 1_000);
    assert_eq!(a, PacerAction::GoAudioOnly);
    assert!(p.audio_only());
    assert_eq!(p.update(100_000), PacerAction::NoChange);
    let a = p.update(LOW_MIN_BPS + 1_000);
    assert_eq!(a, PacerAction::RestoreVideo);
    assert!(!p.audio_only());
}

#[test]
fn no_change_at_correct_layer() {
    let mut p = SubscriberPacer::new();
    for _ in 0..10 {
        assert_eq!(p.update(LOW_MIN_BPS + 50_000), PacerAction::NoChange);
    }
}

#[test]
fn exact_audio_only_boundary_is_video_mode() {
    let mut p = SubscriberPacer::new();
    let action = p.update(AUDIO_ONLY_BPS);
    assert_ne!(action, PacerAction::GoAudioOnly);
}

#[test]
fn no_double_go_audio_only() {
    let mut p = SubscriberPacer::new();
    let first = p.update(AUDIO_ONLY_BPS - 1);
    assert_eq!(first, PacerAction::GoAudioOnly);
    let second = p.update(SUSPEND_VIDEO_BPS + 1);
    assert_eq!(second, PacerAction::NoChange);
}

#[test]
fn restore_video_resets_streak_for_upgrade() {
    let mut p = SubscriberPacer::new();
    let _ = p.update(AUDIO_ONLY_BPS - 1);
    let _ = p.update(LOW_MIN_BPS + 1);
    let _ = p.update(MEDIUM_MIN_BPS + 1);
    let _ = p.update(MEDIUM_MIN_BPS + 1);
    assert_eq!(p.layer(), SfuRid::low(), "after RestoreVideo, still need 3 ticks to upgrade");
    let action = p.update(MEDIUM_MIN_BPS + 1);
    assert_eq!(action, PacerAction::ChangeLayer(SfuRid::medium()));
}

#[test]
fn exact_low_min_boundary_triggers_restore_video() {
    let mut p = SubscriberPacer::new();
    let _ = p.update(AUDIO_ONLY_BPS - 1);
    let action = p.update(LOW_MIN_BPS);
    assert_eq!(action, PacerAction::RestoreVideo);
}

#[test]
fn grey_zone_while_audio_only_is_no_change() {
    let mut p = SubscriberPacer::new();
    let _ = p.update(AUDIO_ONLY_BPS - 1);
    for bps in [AUDIO_ONLY_BPS, AUDIO_ONLY_BPS + 1, LOW_MIN_BPS - 1] {
        assert_eq!(p.update(bps), PacerAction::NoChange, "bps={bps}");
    }
}

#[test]
fn downgrade_from_medium_resets_streak_so_re_upgrade_needs_3_ticks() {
    let mut p = SubscriberPacer::new();
    for _ in 0..3 {
        let _ = p.update(MEDIUM_MIN_BPS + 1);
    }
    assert_eq!(p.layer(), SfuRid::medium());
    let _ = p.update(LOW_MIN_BPS + 1);
    assert_eq!(p.layer(), SfuRid::low());
    let _ = p.update(MEDIUM_MIN_BPS + 1);
    let _ = p.update(MEDIUM_MIN_BPS + 1);
    assert_eq!(p.layer(), SfuRid::low(), "streak must have reset on downgrade");
    let _ = p.update(MEDIUM_MIN_BPS + 1);
    assert_eq!(p.layer(), SfuRid::medium());
}

#[test]
fn enters_suspended_below_suspend_threshold() {
    let mut p = SubscriberPacer::new();
    let a = pump(&mut p, SUSPEND_VIDEO_BPS - 1, SUSPEND_STREAK);
    assert_eq!(a, PacerAction::SuspendVideo);
    assert!(p.suspended());
    assert!(p.audio_only(), "suspended implies audio_only=true");
}

#[test]
fn double_suspend_is_no_change() {
    let mut p = SubscriberPacer::new();
    assert_eq!(pump(&mut p, SUSPEND_VIDEO_BPS - 1, SUSPEND_STREAK), PacerAction::SuspendVideo);
    assert_eq!(p.update(1), PacerAction::NoChange);
}

#[test]
fn grey_zone_while_suspended_is_no_change() {
    let mut p = SubscriberPacer::new();
    let _ = pump(&mut p, SUSPEND_VIDEO_BPS - 1, SUSPEND_STREAK);
    for bps in [SUSPEND_VIDEO_BPS, SUSPEND_VIDEO_BPS + 1, AUDIO_ONLY_BPS - 1] {
        assert_eq!(p.update(bps), PacerAction::NoChange, "bps={bps} grey zone while suspended");
    }
}

#[test]
fn restore_audio_lands_in_audio_only_state() {
    let mut p = SubscriberPacer::new();
    let _ = pump(&mut p, SUSPEND_VIDEO_BPS - 1, SUSPEND_STREAK);
    let a = p.update(AUDIO_ONLY_BPS);
    assert_eq!(a, PacerAction::RestoreAudio);
    assert!(!p.suspended());
    assert!(p.audio_only());
}

#[test]
fn full_recovery_cascade_suspend_to_video() {
    let mut p = SubscriberPacer::new();
    assert_eq!(pump(&mut p, SUSPEND_VIDEO_BPS - 1, SUSPEND_STREAK), PacerAction::SuspendVideo);
    assert_eq!(p.update(AUDIO_ONLY_BPS), PacerAction::RestoreAudio);
    assert_eq!(p.update(LOW_MIN_BPS), PacerAction::RestoreVideo);
    let _ = p.update(MEDIUM_MIN_BPS + 1);
    let _ = p.update(MEDIUM_MIN_BPS + 1);
    let a = p.update(MEDIUM_MIN_BPS + 1);
    assert_eq!(a, PacerAction::ChangeLayer(SfuRid::medium()));
}

#[test]
fn exact_suspend_boundary_is_audio_only_mode() {
    let mut p = SubscriberPacer::new();
    let a = p.update(SUSPEND_VIDEO_BPS);
    assert_eq!(a, PacerAction::GoAudioOnly);
    assert!(!p.suspended());
}

#[test]
fn exact_audio_only_boundary_while_suspended_triggers_restore_audio() {
    let mut p = SubscriberPacer::new();
    let _ = pump(&mut p, SUSPEND_VIDEO_BPS - 1, SUSPEND_STREAK);
    let a = p.update(AUDIO_ONLY_BPS);
    assert_eq!(a, PacerAction::RestoreAudio);
}

#[test]
fn suspend_supersedes_pending_layer_change() {
    let mut p = SubscriberPacer::new();
    let _ = p.update(MEDIUM_MIN_BPS + 1);
    let _ = p.update(MEDIUM_MIN_BPS + 1);
    for _ in 0..(SUSPEND_STREAK - 1) {
        let a = p.update(SUSPEND_VIDEO_BPS - 1);
        assert_eq!(a, PacerAction::NoChange);
        assert!(!p.suspended());
    }
    let a = p.update(SUSPEND_VIDEO_BPS - 1);
    assert_eq!(a, PacerAction::SuspendVideo);
    assert!(p.suspended());
}

#[test]
fn drop_from_video_directly_to_suspend_is_one_event() {
    let mut p = SubscriberPacer::new();
    assert_eq!(p.update(LOW_MIN_BPS + 1), PacerAction::NoChange);
    for _ in 0..(SUSPEND_STREAK - 1) {
        let a = p.update(SUSPEND_VIDEO_BPS - 1);
        assert_ne!(a, PacerAction::GoAudioOnly);
        assert_ne!(a, PacerAction::SuspendVideo);
    }
    let a = p.update(SUSPEND_VIDEO_BPS - 1);
    assert_eq!(a, PacerAction::SuspendVideo);
    assert!(p.suspended());
    assert!(p.audio_only());
}

#[test]
fn single_tick_below_suspend_threshold_does_not_suspend() {
    let mut p = SubscriberPacer::new();
    let action = p.update(SUSPEND_VIDEO_BPS - 1);
    assert_eq!(action, PacerAction::NoChange);
    assert!(!p.suspended());
}

#[test]
fn suspend_streak_consecutive_ticks_required() {
    let mut p = SubscriberPacer::new();
    for _ in 0..(SUSPEND_STREAK - 1) {
        assert_eq!(p.update(SUSPEND_VIDEO_BPS - 1), PacerAction::NoChange);
    }
    assert!(!p.suspended());
    let action = p.update(SUSPEND_VIDEO_BPS - 1);
    assert_eq!(action, PacerAction::SuspendVideo);
    assert!(p.suspended());
}

#[test]
fn suspend_streak_resets_on_interruption() {
    let mut p = SubscriberPacer::new();
    for _ in 0..(SUSPEND_STREAK - 1) {
        let _ = p.update(SUSPEND_VIDEO_BPS - 1);
    }
    let _ = p.update(SUSPEND_VIDEO_BPS);
    assert!(!p.suspended());
    for _ in 0..(SUSPEND_STREAK - 1) {
        assert_eq!(p.update(SUSPEND_VIDEO_BPS - 1), PacerAction::NoChange);
    }
    assert!(!p.suspended());
    assert_eq!(p.update(SUSPEND_VIDEO_BPS - 1), PacerAction::SuspendVideo);
}

#[test]
fn try_with_config_rejects_invalid_in_all_profiles() {
    assert_eq!(
        SubscriberPacer::try_with_config(PacerConfig { upgrade_streak: 0, ..PacerConfig::default() })
            .err(),
        Some(PacerConfigError::UpgradeStreakZero)
    );
    assert_eq!(
        SubscriberPacer::try_with_config(PacerConfig { suspend_streak: 0, ..PacerConfig::default() })
            .err(),
        Some(PacerConfigError::SuspendStreakZero)
    );
    assert!(SubscriberPacer::try_with_config(PacerConfig::default()).is_ok());
}

#[test]
fn upgrade_streak_zero_is_reported_before_suspend_streak_zero() {
    let cfg = PacerConfig { upgrade_streak: 0, suspend_streak: 0, ..PacerConfig::default() };
    assert_eq!(cfg.validate(), Err(PacerConfigError::UpgradeStreakZero));
    assert_eq!(PacerConfig::default().validate(), Ok(()));
}

#[test]
fn default_config_uses_the_module_thresholds() {
    let c = PacerConfig::default();
    assert_eq!(c.suspend_video_bps, SUSPEND_VIDEO_BPS);
    assert_eq!(c.audio_only_bps, AUDIO_ONLY_BPS);
    assert_eq!(c.low_min_bps, LOW_MIN_BPS);
    assert_eq!(c.medium_min_bps, MEDIUM_MIN_BPS);
    assert_eq!(c.high_min_bps, HIGH_MIN_BPS);
    assert_eq!(c.suspend_streak, SUSPEND_STREAK);
    assert_eq!(c.upgrade_streak, UPGRADE_STREAK);
}

#[test]
fn custom_config_changes_thresholds() {
    let cfg = PacerConfig { upgrade_streak: 1, audio_only_bps: 200_000, ..PacerConfig::default() };
    let mut p = SubscriberPacer::with_config(cfg);
    assert_eq!(p.update(199_999), PacerAction::GoAudioOnly);
    assert_eq!(p.update(LOW_MIN_BPS), PacerAction::RestoreVideo);
    assert_eq!(p.update(MEDIUM_MIN_BPS), PacerAction::ChangeLayer(SfuRid::medium()));
}

#[test]
fn upgrade_jumps_straight_to_target_layer() {
    let mut p = SubscriberPacer::new();
    let mut changes = Vec::new();
    for _ in 0..(2 * UPGRADE_STREAK) {
        let a = p.update(HIGH_MIN_BPS);
        if a != PacerAction::NoChange {
            changes.push(a);
        }
    }
    assert_eq!(changes, vec![PacerAction::ChangeLayer(SfuRid::high())]);
}
