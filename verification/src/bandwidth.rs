//! Bandwidth estimation types.
use vstd::prelude::*;

verus! {

/// Aggregated egress bandwidth estimate for a peer's outgoing stream.
///
/// Units: bits per second. `0` is legal: the estimator has observed network
/// failure or has no data yet.
#[derive(Debug, Clone, Copy, PartialEq, Eq, Structural)]
pub struct BandwidthEstimate {
    /// Current estimate in bits per second.
    pub bps: u64,
}

impl BandwidthEstimate {
    /// Zero-bandwidth fallback, useful in tests and as a safe initializer.
    pub fn zero() -> (r: Self)
        ensures
            r.bps == 0,
    {
        Self { bps: 0 }
    }
}

} // verus!
