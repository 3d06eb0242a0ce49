//! Congestion control plugin seam.
//!
//! The default congestion control is the GoogCC run inside the WebRTC
//! engine, surfaced as bandwidth-estimate events. This trait is the plugin
//! point for alternative algorithms (SCReAMv2, L4S).
use vstd::prelude::*;

use std::time::Instant;

verus! {

/// Plugin interface for replacing the default congestion controller.
///
/// The kit feeds incoming TWCC feedback packets; the implementation returns
/// a bitrate estimate.
pub trait CongestionControl: Send + Sync + 'static {
    /// Feed a raw TWCC feedback packet payload received from peer `peer_id`.
    fn on_twcc_feedback(&mut self, peer_id: u64, payload: &[u8], now: Instant);

    /// Current egress bandwidth estimate for a peer (bits/s), or `None` if
    /// the estimator has not converged.
    fn egress_estimate_bps(&self, peer_id: u64) -> Option<u64>;
}

/// Default congestion control: delegates to the engine's built-in GoogCC,
/// so no feedback is processed here and no estimate is reported.
#[derive(Debug, Default)]
pub struct DefaultGoogCC;

impl CongestionControl for DefaultGoogCC {
    fn on_twcc_feedback(&mut self, _peer_id: u64, _payload: &[u8], _now: Instant) {
    }

    fn egress_estimate_bps(&self, _peer_id: u64) -> (r: Option<u64>)
        ensures
            r is None,
    {
        None
    }
}

} // verus!
