use sfu_kit::ids::SfuRid;
use sfu_kit::layer_selector::{BestFitSelector, LayerSelector};
use sfu_kit::sframe::{KeyEpoch, KeyEpochSerializer, SFRAME_KID_WIDTH};

#[test]
fn empty_active_returns_desired() {
    assert_eq!(BestFitSelector.select(SfuRid::medium(), &[]), SfuRid::medium());
}

#[test]
fn selects_matching_layer() {
    let active = [SfuRid::low(), SfuRid::medium(), SfuRid::high()];
    assert_eq!(BestFitSelector.select(SfuRid::medium(), &active), SfuRid::medium());
}

#[test]
fn clamps_to_best_below_desired() {
    let active = [SfuRid::low(), SfuRid::medium()];
    assert_eq!(BestFitSelector.select(SfuRid::high(), &active), SfuRid::medium());
}

#[test]
fn falls_back_to_lowest_when_all_above() {
    let active = [SfuRid::medium(), SfuRid::high()];
    assert_eq!(BestFitSelector.select(SfuRid::low(), &active), SfuRid::medium());
}

#[test]
fn single_active_rid_always_wins() {
    let s = BestFitSelector;
    assert_eq!(s.select(SfuRid::low(), &[SfuRid::high()]), SfuRid::high());
    assert_eq!(s.select(SfuRid::high(), &[SfuRid::low()]), SfuRid::low());
    assert_eq!(s.select(SfuRid::medium(), &[SfuRid::medium()]), SfuRid::medium());
}

#[test]
fn desired_exactly_matches_one_of_multiple_active() {
    let active = [SfuRid::low(), SfuRid::medium(), SfuRid::high()];
    assert_eq!(BestFitSelector.select(SfuRid::low(), &active), SfuRid::low());
}

#[test]
fn best_fit_prefers_highest_below_desired_not_lowest() {
    let active = [SfuRid::low(), SfuRid::medium()];
    assert_eq!(BestFitSelector.select(SfuRid::high(), &active), SfuRid::medium());
}

#[test]
fn best_fit_ignores_active_order() {
    let s = BestFitSelector;
    assert_eq!(s.best_fit(SfuRid::high(), &[SfuRid::medium(), SfuRid::low()]), SfuRid::medium());
    assert_eq!(s.best_fit(SfuRid::low(), &[SfuRid::high(), SfuRid::medium()]), SfuRid::medium());
}

#[test]
fn key_epoch_newtype_roundtrip() {
    let k = KeyEpoch::new(42);
    assert_eq!(k.as_u64(), 42);
    assert_eq!(KeyEpoch::new(0).as_u64(), 0);
}

#[test]
fn key_epoch_serializer_wire_roundtrip() {
    let ser = KeyEpochSerializer;
    for kid in [0u64, 1, 7, 255, 256, 65_535, u64::from(u32::MAX)] {
        let mut buf = [0u8; 16];
        let n = ser.write_to(&mut buf, Some(KeyEpoch::new(kid)));
        assert_eq!(n, SFRAME_KID_WIDTH, "kid={kid} must write a fixed 4 bytes");
        assert_eq!(ser.parse_value(&buf[..n]), Some(KeyEpoch::new(kid)), "kid={kid}");
    }
}

#[test]
fn key_epoch_serializer_writes_big_endian() {
    let mut buf = [0u8; 6];
    assert_eq!(KeyEpochSerializer.write_to(&mut buf, Some(KeyEpoch::new(0x0102_0304))), 4);
    assert_eq!(buf, [1, 2, 3, 4, 0, 0]);
    assert_eq!(KeyEpochSerializer.parse_value(&[0xde, 0xad, 0xbe, 0xef]), Some(KeyEpoch::new(0xdead_beef)));
}

#[test]
fn key_epoch_serializer_omits_kid_above_u32() {
    let mut buf = [0u8; 16];
    assert_eq!(KeyEpochSerializer.write_to(&mut buf, Some(KeyEpoch::new(u64::from(u32::MAX) + 1))), 0);
    assert_eq!(buf, [0u8; 16]);
}

#[test]
fn key_epoch_serializer_refuses_short_buffer() {
    let mut buf = [0u8; SFRAME_KID_WIDTH - 1];
    assert_eq!(KeyEpochSerializer.write_to(&mut buf, Some(KeyEpoch::new(7))), 0);
}

#[test]
fn key_epoch_serializer_absent_writes_nothing() {
    let mut buf = [0u8; 16];
    assert_eq!(KeyEpochSerializer.write_to(&mut buf, None), 0);
}

#[test]
fn key_epoch_serializer_rejects_wrong_width() {
    let ser = KeyEpochSerializer;
    assert!(ser.parse_value(&[]).is_none());
    assert!(ser.parse_value(&[0u8; 3]).is_none());
    assert!(ser.parse_value(&[0u8; 5]).is_none());
    assert!(ser.parse_value(&[0u8; 9]).is_none());
    assert!(ser.parse_value(&[0u8; SFRAME_KID_WIDTH]).is_some());
}

#[test]
fn key_epoch_serializer_applies_to_audio_and_video() {
    assert!(KeyEpochSerializer.is_video());
    assert!(KeyEpochSerializer.is_audio());
}
