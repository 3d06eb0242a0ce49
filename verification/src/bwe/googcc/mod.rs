//! Building blocks of the per-subscriber GoogCC-style estimator: the
//! loss-based AIMD controller and the delay detector's congestion states.

pub mod aimd;
pub mod trendline;

pub use aimd::{AimdController, LossZone};
pub use trendline::BandwidthState;

use vstd::prelude::*;

verus! {

/// Default initial bitrate assigned to a new GoogCC estimator (bps).
pub const GOOGCC_INITIAL_BPS: u64 = 500_000;

/// Default minimum bitrate floor (bps).
pub const GOOGCC_MIN_BPS: u64 = 100_000;

/// Default maximum bitrate ceiling (bps).
pub const GOOGCC_MAX_BPS: u64 = 2_500_000;

} // verus!
