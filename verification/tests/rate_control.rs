use sfu_kit::bandwidth::BandwidthEstimate;
use sfu_kit::bwe::googcc::{AimdController, LossZone, GOOGCC_INITIAL_BPS, GOOGCC_MAX_BPS, GOOGCC_MIN_BPS};

#[test]
fn low_loss_increases_bitrate() {
    let mut c = AimdController::new(500_000, 100_000, 2_000_000);
    let before = c.current();
    c.apply_loss_zone(LossZone::Low);
    assert!(c.current() > before);
}

#[test]
fn high_loss_decreases_bitrate() {
    let mut c = AimdController::new(500_000, 100_000, 2_000_000);
    let before = c.current();
    c.apply_loss_zone(LossZone::High);
    assert!(c.current() < before);
}

#[test]
fn neutral_loss_holds_bitrate() {
    let mut c = AimdController::new(500_000, 100_000, 2_000_000);
    let before = c.current();
    c.apply_loss_zone(LossZone::Neutral);
    assert_eq!(c.current(), before);
}

#[test]
fn overuse_decreases_bitrate() {
    let mut c = AimdController::new(1_000_000, 100_000, 2_000_000);
    let before = c.current();
    c.on_overuse();
    assert!(c.current() < before);
}

#[test]
fn bitrate_never_exceeds_max() {
    let mut c = AimdController::new(1_900_000, 100_000, 2_000_000);
    for _ in 0..100 {
        c.apply_loss_zone(LossZone::Low);
    }
    assert!(c.current() <= 2_000_000);
}

#[test]
fn bitrate_never_goes_below_min() {
    let mut c = AimdController::new(200_000, 100_000, 2_000_000);
    for _ in 0..100 {
        c.on_overuse();
    }
    assert!(c.current() >= 100_000);
}

#[test]
fn aimd_exact_steps() {
    let mut c = AimdController::new(500_000, 100_000, 2_000_000);
    assert_eq!(c.apply_loss_zone(LossZone::Low), 540_000);
    assert_eq!(c.on_overuse(), 459_000);
    assert_eq!(c.apply_loss_zone(LossZone::High), 390_150);
    let mut small = AimdController::new(50_000, 10_000, 2_000_000);
    assert_eq!(small.apply_loss_zone(LossZone::Low), 58_000);
    let mut floor = AimdController::new(110_000, 100_000, 2_000_000);
    assert_eq!(floor.on_overuse(), 100_000);
    let mut ceil = AimdController::new(1_990_000, 100_000, 2_000_000);
    assert_eq!(ceil.apply_loss_zone(LossZone::Low), 2_000_000);
}

#[test]
fn googcc_defaults_are_ordered() {
    assert!(GOOGCC_MIN_BPS < GOOGCC_INITIAL_BPS);
    assert!(GOOGCC_INITIAL_BPS < GOOGCC_MAX_BPS);
}

#[test]
fn zero_estimate_is_zero() {
    assert_eq!(BandwidthEstimate::zero().bps, 0);
}

use sfu_kit::bwe::loss_window::{LossWindow, LOSS_WINDOW};

#[test]
fn loss_fraction_computed_correctly() {
    let mut w = LossWindow::new();
    for i in 0..LOSS_WINDOW {
        w.record(i % 5 != 0);
    }
    assert_eq!(w.len(), LOSS_WINDOW);
    assert_eq!(w.lost(), 13);
    let f = w.lost() as f64 / w.len() as f64;
    assert!((f - 0.20).abs() < 0.05, "expected ~20% loss fraction, got {f}");
}

#[test]
fn window_slides_old_entries_out() {
    let mut w = LossWindow::new();
    for _ in 0..LOSS_WINDOW {
        w.record(false);
    }
    assert_eq!(w.lost(), LOSS_WINDOW);
    for _ in 0..LOSS_WINDOW {
        w.record(true);
    }
    assert_eq!(w.lost(), 0);
    assert_eq!(w.len(), LOSS_WINDOW);
}

#[test]
fn loss_window_keeps_the_most_recent_records() {
    let mut w = LossWindow::new();
    assert!(w.is_empty());
    w.record(false);
    w.record(true);
    assert_eq!((w.len(), w.lost()), (2, 1));
    for _ in 0..(LOSS_WINDOW - 2) {
        w.record(true);
    }
    assert_eq!((w.len(), w.lost()), (LOSS_WINDOW, 1));
    w.record(true);
    assert_eq!((w.len(), w.lost()), (LOSS_WINDOW, 0));
}

use sfu_kit::bwe::send_times::{SendTimes, MAX_SEND_TIMES};
use std::time::{Duration, Instant};

#[test]
fn send_times_remember_and_forget_lowest_sequence() {
    let base = Instant::now();
    let mut st = SendTimes::new();
    assert_eq!(st.len(), 0);
    assert!(st.get(7).is_none());
    for seq in 0..MAX_SEND_TIMES as u64 {
        st.record(seq + 100, base + Duration::from_millis(seq));
    }
    assert_eq!(st.len(), MAX_SEND_TIMES);
    assert_eq!(st.get(100), Some(base));
    st.record(5, base);
    assert_eq!(st.len(), MAX_SEND_TIMES);
    assert!(st.get(100).is_none(), "the smallest sequence number is evicted first");
    assert_eq!(st.get(5), Some(base));
    assert_eq!(st.get(101), Some(base + Duration::from_millis(1)));
    st.record(5, base + Duration::from_millis(9));
    assert_eq!(st.len(), MAX_SEND_TIMES);
    assert_eq!(st.get(5), Some(base + Duration::from_millis(9)));
    assert_eq!(st.get(101), Some(base + Duration::from_millis(1)));
}

#[test]
fn send_times_overwrite_below_capacity() {
    let base = Instant::now();
    let mut st = SendTimes::new();
    st.record(1, base);
    st.record(1, base + Duration::from_millis(3));
    assert_eq!(st.len(), 1);
    assert_eq!(st.get(1), Some(base + Duration::from_millis(3)));
}

use sfu_kit::bwe::feedback::GradientReference;

#[test]
fn lost_packet_does_not_become_the_gradient_reference() {
    let base = Instant::now();
    let t = |ms: u64| base + Duration::from_millis(ms);
    let mut r = GradientReference::new();
    assert!(r.step(Some(t(10)), Some(t(0))).is_none(), "the first packet only sets the reference");
    assert!(r.step(None, Some(t(5))).is_none(), "a lost packet yields nothing");
    assert!(r.step(Some(t(30)), None).is_none(), "an unknown send instant yields nothing");
    let p = r.step(Some(t(40)), Some(t(20))).expect("pair");
    assert_eq!((p.prev_arrival, p.prev_send, p.arrival, p.send), (t(10), t(0), t(40), t(20)));
    let p = r.step(Some(t(50)), Some(t(30))).expect("pair");
    assert_eq!((p.prev_arrival, p.prev_send), (t(40), t(20)));
}
