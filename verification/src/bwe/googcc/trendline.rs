//! Congestion states reported by the trendline delay detector.
use vstd::prelude::*;

verus! {

/// Signal emitted by the trendline delay detector.
#[non_exhaustive]
#[derive(Debug, Clone, Copy, PartialEq, Eq, Structural)]
pub enum BandwidthState {
    /// Delay is decreasing: the link has spare capacity.
    Underuse,
    /// Delay is stable: bitrate roughly matches capacity.
    Normal,
    /// Delay is building: reduce bitrate.
    Overuse,
}

} // verus!
