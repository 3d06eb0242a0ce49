//! TWCC feedback records, and the choice of the packet pairs whose timing
//! differences feed the delay estimator.
use vstd::prelude::*;

use std::time::Instant;

verus! {

/// A single packet record from a TWCC feedback report.
#[derive(Debug, Clone)]
pub struct TwccSample {
    /// Extended RTP sequence number.
    pub seq: u64,
    /// Arrival time at the receiver; `None` if the packet was lost.
    pub arrival: Option<Instant>,
}

/// A parsed TWCC feedback batch for one subscriber tick.
pub struct TwccFeedback {
    /// Samples from the report, in ascending sequence order.
    pub samples: Vec<TwccSample>,
}

/// Two timed packets whose arrival and send differences give one delay
/// gradient sample.
#[derive(Debug, Clone, Copy)]
pub struct GradientPair {
    /// Arrival of the earlier packet.
    pub prev_arrival: Instant,
    /// Send instant of the earlier packet.
    pub prev_send: Instant,
    /// Arrival of the later packet.
    pub arrival: Instant,
    /// Send instant of the later packet.
    pub send: Instant,
}

/// The reference packet of the next gradient: arrival and send instant of
/// the last packet that was received and whose send instant is known.
#[derive(Debug, Clone, Copy)]
pub struct GradientReference {
    /// `(arrival, send)` of the last received packet with a known send
    /// instant, if any.
    pub last: Option<(Instant, Instant)>,
}

/// The reference after a sample with arrival `arrival` and known send
/// instant `send`: only a received packet with a known send instant
/// becomes the new reference.
pub open spec fn reference_after(
    last: Option<(Instant, Instant)>,
    arrival: Option<Instant>,
    send: Option<Instant>,
) -> Option<(Instant, Instant)> {
    match (arrival, send) {
        (Some(a), Some(s)) => Some((a, s)),
        _ => last,
    }
}

/// The gradient pair a sample yields: the sample against the reference,
/// when both are received packets with known send instants.
pub open spec fn pair_of(
    last: Option<(Instant, Instant)>,
    arrival: Option<Instant>,
    send: Option<Instant>,
) -> Option<GradientPair> {
    match (last, arrival, send) {
        (Some((pa, ps)), Some(a), Some(s)) => Some(
            GradientPair { prev_arrival: pa, prev_send: ps, arrival: a, send: s },
        ),
        _ => None,
    }
}

impl GradientReference {
    /// No reference yet.
    pub fn new() -> (r: Self)
        ensures
            r.last is None,
    {
        GradientReference { last: None }
    }

    /// Offer one sample (its arrival, `None` if lost, and its send instant,
    /// `None` if unknown); returns the gradient pair it yields, if any, and
    /// moves the reference to it when it is a received packet with a known
    /// send instant.
    pub fn step(&mut self, arrival: Option<Instant>, send: Option<Instant>) -> (p: Option<GradientPair>)
        ensures
            p == pair_of(old(self).last, arrival, send),
            final(self).last == reference_after(old(self).last, arrival, send),
    {
        match (arrival, send) {
            (Some(a), Some(s)) => {
                let p = match self.last {
                    Some((pa, ps)) => Some(
                        GradientPair { prev_arrival: pa, prev_send: ps, arrival: a, send: s },
                    ),
                    None => None,
                };
                self.last = Some((a, s));
                p
            },
            _ => None,
        }
    }
}

/// A lost packet (or one whose send instant is unknown) neither yields a
/// gradient nor disturbs the reference, so the next received packet is
/// compared with the last received one, never with a lost one.
pub proof fn lemma_loss_keeps_reference(
    last: Option<(Instant, Instant)>,
    arrival: Option<Instant>,
    send: Option<Instant>,
)
    requires
        arrival is None || send is None,
    ensures
        pair_of(last, arrival, send) is None,
        reference_after(last, arrival, send) == last,
{
}

} // verus!
