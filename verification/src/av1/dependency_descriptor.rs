//! AV1 Dependency Descriptor RTP header extension parser.
//!
//! Implements the minimal subset needed by a forwarding SFU: extract
//! `temporal_id` and `spatial_id` for the L3T3 (3 spatial x 3 temporal)
//! AV1-SVC profile. Unknown template IDs fall back to (0, 0).
use vstd::prelude::*;

verus! {

/// Extracted layer IDs from an AV1 Dependency Descriptor.
#[non_exhaustive]
#[derive(Debug, Clone, Copy, PartialEq, Eq, Hash)]
pub struct Av1DdInfo {
    /// Spatial layer (0 = base).
    pub spatial_id: u8,
    /// Temporal layer (0 = base, 1 = half-rate, 2 = quarter-rate in L3T3).
    pub temporal_id: u8,
    /// First packet of a frame.
    pub start_of_frame: bool,
    /// Last packet of a frame.
    pub end_of_frame: bool,
}

/// The template id carried in the low six bits of the first byte.
pub open spec fn template_id_of(b: u8) -> int {
    b as int % 64
}

/// What the parser extracts from a first descriptor byte `b`: the
/// start/end-of-frame flags from the two high bits, and the L3T3 layer
/// pair `(template / 3, template % 3)` for templates 0..=8, `(0, 0)` otherwise.
pub open spec fn dd_info_of(b: u8) -> Av1DdInfo {
    let t = template_id_of(b);
    Av1DdInfo {
        spatial_id: if t < 9 { (t / 3) as u8 } else { 0 },
        temporal_id: if t < 9 { (t % 3) as u8 } else { 0 },
        start_of_frame: b >= 128,
        end_of_frame: (b as int / 64) % 2 == 1,
    }
}

/// Parse the first byte of a raw AV1 Dependency Descriptor extension value.
///
/// Returns `None` if `bytes` is empty (malformed extension). Only the first
/// byte is read; unknown template IDs (> 8 for L3T3) give layer (0, 0).
pub fn parse(bytes: &[u8]) -> (r: Option<Av1DdInfo>)
    ensures
        bytes@.len() == 0 ==> r is None,
        bytes@.len() > 0 ==> r == Some(dd_info_of(bytes@[0])),
{
    if bytes.len() == 0 {
        return None;
    }
    let first = bytes[0];
    let start_of_frame = (first >> 7) & 1 == 1;
    let end_of_frame = (first >> 6) & 1 == 1;
    let template_id = first & 0x3F;
    assert(start_of_frame == (first >= 128)) by (bit_vector)
        requires start_of_frame == ((first >> 7) & 1 == 1);
    assert(end_of_frame == ((first / 64) % 2 == 1)) by (bit_vector)
        requires end_of_frame == ((first >> 6) & 1 == 1);
    assert(template_id == first % 64) by (bit_vector)
        requires template_id == first & 0x3F;
    // L3T3 layout: templates 0-8, spatial = id/3, temporal = id%3.
    let (spatial_id, temporal_id) = if template_id < 9 {
        (template_id / 3, template_id % 3)
    } else {
        (0, 0)
    };
    Some(Av1DdInfo { spatial_id, temporal_id, start_of_frame, end_of_frame })
}

} // verus!
