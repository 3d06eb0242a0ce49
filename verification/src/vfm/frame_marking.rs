//! RFC 9626 Video Frame Marking RTP header extension parser.
//!
//! Parses the 1-byte short form `|S|E|I|D|B| TID |`:
//! S = start of frame, E = end, I = independent, D = discardable,
//! B = base-layer sync, TID = temporal layer ID (0-7).
use vstd::prelude::*;

verus! {

/// Parsed Video Frame Marking header extension (RFC 9626 short form).
#[non_exhaustive]
#[derive(Debug, Clone, Copy, PartialEq, Eq, Hash)]
pub struct FrameMarkingInfo {
    /// First packet of a frame.
    pub start_of_frame: bool,
    /// Last packet of a frame.
    pub end_of_frame: bool,
    /// Frame can be decoded without prior frames (key frame).
    pub independent: bool,
    /// Frame can be discarded without visible artifacts.
    pub discardable: bool,
    /// Base layer sync point.
    pub base_layer_sync: bool,
    /// Temporal layer ID (0 = base, 1 = half-rate, 2 = quarter-rate, ...).
    pub temporal_id: u8,
}

/// Whether bit `k` of `b` is set, where bit 7 is the most significant.
pub open spec fn flag(b: u8, k: int) -> bool {
    (b as int / pow2(k)) % 2 == 1
}

/// `2^k` for `k >= 0`.
pub open spec fn pow2(k: int) -> int
    decreases k,
{
    if k <= 0 {
        1
    } else {
        2 * pow2(k - 1)
    }
}

/// The marking described by a short-form byte `b`.
pub open spec fn frame_marking_of(b: u8) -> FrameMarkingInfo {
    FrameMarkingInfo {
        start_of_frame: flag(b, 7),
        end_of_frame: flag(b, 6),
        independent: flag(b, 5),
        discardable: flag(b, 4),
        base_layer_sync: flag(b, 3),
        temporal_id: (b as int % 8) as u8,
    }
}

/// Parse a raw Video Frame Marking header extension payload.
///
/// Only the first byte (short form) is read; the extra bytes of the long
/// form are ignored. Returns `None` if `bytes` is empty.
pub fn parse(bytes: &[u8]) -> (r: Option<FrameMarkingInfo>)
    ensures
        bytes@.len() == 0 ==> r is None,
        bytes@.len() > 0 ==> r == Some(frame_marking_of(bytes@[0])),
{
    if bytes.len() == 0 {
        return None;
    }
    let b = bytes[0];
    let s = (b >> 7) & 1 == 1;
    let e = (b >> 6) & 1 == 1;
    let i = (b >> 5) & 1 == 1;
    let d = (b >> 4) & 1 == 1;
    let bl = (b >> 3) & 1 == 1;
    let tid = b & 0x07;
    proof {
        reveal_with_fuel(pow2, 8);
        assert(s == ((b / 128) % 2 == 1)) by (bit_vector)
            requires s == ((b >> 7) & 1 == 1);
        assert(e == ((b / 64) % 2 == 1)) by (bit_vector)
            requires e == ((b >> 6) & 1 == 1);
        assert(i == ((b / 32) % 2 == 1)) by (bit_vector)
            requires i == ((b >> 5) & 1 == 1);
        assert(d == ((b / 16) % 2 == 1)) by (bit_vector)
            requires d == ((b >> 4) & 1 == 1);
        assert(bl == ((b / 8) % 2 == 1)) by (bit_vector)
            requires bl == ((b >> 3) & 1 == 1);
        assert(tid == b % 8) by (bit_vector)
            requires tid == b & 0x07;
    }
    Some(FrameMarkingInfo {
        start_of_frame: s,
        end_of_frame: e,
        independent: i,
        discardable: d,
        base_layer_sync: bl,
        temporal_id: tid,
    })
}

} // verus!
