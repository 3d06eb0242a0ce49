use sfu_kit::av1::dependency_descriptor::parse as parse_dd;
use sfu_kit::vfm::frame_marking::parse as parse_vfm;

fn make_dd_byte(sof: bool, eof: bool, template_id: u8) -> u8 {
    let sof_bit = if sof { 1u8 << 7 } else { 0 };
    let eof_bit = if eof { 1u8 << 6 } else { 0 };
    sof_bit | eof_bit | (template_id & 0x3F)
}

fn make_vfm_byte(s: bool, e: bool, i: bool, d: bool, b: bool, tid: u8) -> u8 {
    ((s as u8) << 7)
        | ((e as u8) << 6)
        | ((i as u8) << 5)
        | ((d as u8) << 4)
        | ((b as u8) << 3)
        | (tid & 0x07)
}

#[test]
fn dependency_descriptor_empty_returns_none() {
    assert!(parse_dd(&[]).is_none());
}

#[test]
fn base_layer_s0t0() {
    let byte = make_dd_byte(true, false, 0);
    let info = parse_dd(&[byte]).unwrap();
    assert_eq!(info.spatial_id, 0);
    assert_eq!(info.temporal_id, 0);
    assert!(info.start_of_frame);
    assert!(!info.end_of_frame);
}

#[test]
fn s1t2_layer() {
    let byte = make_dd_byte(false, true, 5);
    let info = parse_dd(&[byte]).unwrap();
    assert_eq!(info.spatial_id, 1);
    assert_eq!(info.temporal_id, 2);
    assert!(!info.start_of_frame);
    assert!(info.end_of_frame);
}

#[test]
fn s2t1_layer() {
    let byte = make_dd_byte(true, true, 7);
    let info = parse_dd(&[byte]).unwrap();
    assert_eq!(info.spatial_id, 2);
    assert_eq!(info.temporal_id, 1);
}

#[test]
fn unknown_template_falls_back_to_base() {
    let byte = make_dd_byte(false, false, 63);
    let info = parse_dd(&[byte]).unwrap();
    assert_eq!(info.spatial_id, 0);
    assert_eq!(info.temporal_id, 0);
}

#[test]
fn all_nine_l3t3_templates_map_correctly() {
    let expected: [(u8, u8); 9] = [
        (0, 0),
        (0, 1),
        (0, 2),
        (1, 0),
        (1, 1),
        (1, 2),
        (2, 0),
        (2, 1),
        (2, 2),
    ];
    for (template_id, (exp_spatial, exp_temporal)) in expected.iter().enumerate() {
        let byte = make_dd_byte(false, false, template_id as u8);
        let info = parse_dd(&[byte]).unwrap();
        assert_eq!(info.spatial_id, *exp_spatial, "template {template_id}");
        assert_eq!(info.temporal_id, *exp_temporal, "template {template_id}");
    }
}

#[test]
fn template_id_8_is_last_valid_l3t3() {
    let info8 = parse_dd(&[make_dd_byte(false, false, 8)]).unwrap();
    assert_eq!((info8.spatial_id, info8.temporal_id), (2, 2));
    let info9 = parse_dd(&[make_dd_byte(false, false, 9)]).unwrap();
    assert_eq!((info9.spatial_id, info9.temporal_id), (0, 0));
}

#[test]
fn multi_byte_payload_uses_only_first_byte() {
    let payload = [make_dd_byte(true, true, 4), 0xFF, 0xFF, 0xFF];
    let info = parse_dd(&payload).unwrap();
    assert_eq!(info.spatial_id, 1);
    assert_eq!(info.temporal_id, 1);
    assert!(info.start_of_frame);
    assert!(info.end_of_frame);
}

#[test]
fn template_id_63_highest_unknown_is_base() {
    let info = parse_dd(&[make_dd_byte(true, false, 0x3F)]).unwrap();
    assert_eq!((info.spatial_id, info.temporal_id), (0, 0));
}

#[test]
fn dependency_descriptor_flags_are_the_two_top_bits() {
    let info = parse_dd(&[0b1000_0011]).unwrap();
    assert!(info.start_of_frame);
    assert!(!info.end_of_frame);
    assert_eq!((info.spatial_id, info.temporal_id), (1, 0));
    let info = parse_dd(&[0b0100_0010]).unwrap();
    assert!(!info.start_of_frame);
    assert!(info.end_of_frame);
    assert_eq!((info.spatial_id, info.temporal_id), (0, 2));
}

#[test]
fn frame_marking_empty_returns_none() {
    assert!(parse_vfm(&[]).is_none());
}

#[test]
fn base_layer_keyframe() {
    let byte = make_vfm_byte(true, true, true, false, true, 0);
    let info = parse_vfm(&[byte]).unwrap();
    assert!(info.start_of_frame);
    assert!(info.end_of_frame);
    assert!(info.independent);
    assert!(!info.discardable);
    assert!(info.base_layer_sync);
    assert_eq!(info.temporal_id, 0);
}

#[test]
fn temporal_layer_2_discardable() {
    let byte = make_vfm_byte(false, true, false, true, false, 2);
    let info = parse_vfm(&[byte]).unwrap();
    assert!(!info.start_of_frame);
    assert!(info.end_of_frame);
    assert!(!info.independent);
    assert!(info.discardable);
    assert!(!info.base_layer_sync);
    assert_eq!(info.temporal_id, 2);
}

#[test]
fn max_temporal_id_7() {
    let info = parse_vfm(&[make_vfm_byte(false, false, false, false, false, 7)]).unwrap();
    assert_eq!(info.temporal_id, 7);
}

#[test]
fn tid_mask_is_3_bits() {
    let info = parse_vfm(&[make_vfm_byte(false, false, false, false, false, 5)]).unwrap();
    assert_eq!(info.temporal_id, 5);
}

#[test]
fn multi_byte_uses_only_first_byte() {
    let byte0 = make_vfm_byte(true, false, true, false, false, 1);
    let info = parse_vfm(&[byte0, 0xFF, 0xAB]).unwrap();
    assert_eq!(info.temporal_id, 1);
    assert!(info.start_of_frame);
}

#[test]
fn frame_marking_all_bits_set() {
    let info = parse_vfm(&[0xFF]).unwrap();
    assert!(info.start_of_frame && info.end_of_frame && info.independent);
    assert!(info.discardable && info.base_layer_sync);
    assert_eq!(info.temporal_id, 7);
}
