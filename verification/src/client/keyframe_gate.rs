//! Throttling of the keyframe requests sent upstream for one incoming track.
use vstd::prelude::*;

verus! {

/// Minimum gap between two keyframe requests (PLI/FIR) for the same track,
/// in milliseconds: fast enough to unblock receivers, slow enough to avoid
/// request storms.
pub const KEYFRAME_REQUEST_MIN_GAP_MS: u64 = 1000;

/// Milliseconds elapsed from `since` to `now`, zero if the clock reads
/// earlier than `since`.
pub open spec fn elapsed_ms(since: u64, now: u64) -> int {
    if now >= since {
        now - since
    } else {
        0
    }
}

/// Whether a keyframe request for a track may be sent at `now_ms`, given the
/// time of the last request sent for it (`None` = never).
pub fn keyframe_request_due(last_request_ms: Option<u64>, now_ms: u64) -> (due: bool)
    ensures
        due == match last_request_ms {
            None => true,
            Some(last) => elapsed_ms(last, now_ms) >= KEYFRAME_REQUEST_MIN_GAP_MS,
        },
{
    match last_request_ms {
        None => true,
        Some(last) => {
            let elapsed = if now_ms >= last {
                now_ms - last
            } else {
                0
            };
            elapsed >= KEYFRAME_REQUEST_MIN_GAP_MS
        },
    }
}

} // verus!
