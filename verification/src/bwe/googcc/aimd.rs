//! Loss-based AIMD bandwidth controller.
//!
//! Additive increase / multiplicative decrease:
//! - increase by 8 % (at least 8 kbps) when the loss fraction is low,
//! - decrease to 85 % when the loss fraction is high or the delay detector
//!   reports overuse,
//! - hold in between.
use vstd::prelude::*;

verus! {

/// Where an observed loss fraction falls relative to the controller's
/// thresholds (below 0.5 %, between, above 2 %).
#[derive(Debug, Clone, Copy, PartialEq, Eq, Structural)]
pub enum LossZone {
    /// Low loss: additive increase.
    Low,
    /// Between the thresholds: hold.
    Neutral,
    /// High loss: multiplicative decrease.
    High,
}

/// Loss-based AIMD congestion controller.
#[derive(Debug, Clone)]
pub struct AimdController {
    bitrate_bps: u64,
    min_bps: u64,
    max_bps: u64,
}

/// The controller's state: `(bitrate, min, max)`.
pub struct AimdModel {
    /// Current target bitrate (bps).
    pub bitrate: int,
    /// Floor applied on decrease (bps).
    pub min: int,
    /// Ceiling applied on increase (bps).
    pub max: int,
}

/// Multiplicative decrease: 85 % of `b` (rounded down), not below `min`.
pub open spec fn aimd_decrease(b: int, min: int) -> int {
    let d = b * 85 / 100;
    if d > min {
        d
    } else {
        min
    }
}

/// The additive step for bitrate `b`: 8 % of `b` (rounded down), at least 8 000.
pub open spec fn aimd_step(b: int) -> int {
    let s = b * 8 / 100;
    if s > 8000 {
        s
    } else {
        8000
    }
}

/// Additive increase: `b` plus its step, not above `max`.
pub open spec fn aimd_increase(b: int, max: int) -> int {
    let i = b + aimd_step(b);
    if i < max {
        i
    } else {
        max
    }
}

/// The bitrate after applying `zone` to `m`.
pub open spec fn aimd_after_loss(m: AimdModel, zone: LossZone) -> int {
    match zone {
        LossZone::Low => aimd_increase(m.bitrate, m.max),
        LossZone::Neutral => m.bitrate,
        LossZone::High => aimd_decrease(m.bitrate, m.min),
    }
}

/// `b * 85 / 100`, computed without overflow.
fn mul_85_percent(b: u64) -> (r: u64)
    ensures
        r == b * 85 / 100,
{
    let q = b / 100;
    let rem = b % 100;
    proof {
        assert(b * 85 / 100 == q * 85 + rem * 85 / 100) by (nonlinear_arith)
            requires
                q == b / 100,
                rem == b % 100,
        ;
        assert(q * 85 <= b) by (nonlinear_arith)
            requires
                q == b / 100,
        ;
    }
    q * 85 + rem * 85 / 100
}

/// `b * 8 / 100`, computed without overflow.
fn mul_8_percent(b: u64) -> (r: u64)
    ensures
        r == b * 8 / 100,
{
    let q = b / 100;
    let rem = b % 100;
    proof {
        assert(b * 8 / 100 == q * 8 + rem * 8 / 100) by (nonlinear_arith)
            requires
                q == b / 100,
                rem == b % 100,
        ;
        assert(q * 8 <= b) by (nonlinear_arith)
            requires
                q == b / 100,
        ;
    }
    q * 8 + rem * 8 / 100
}

impl View for AimdController {
    type V = AimdModel;

    closed spec fn view(&self) -> AimdModel {
        AimdModel { bitrate: self.bitrate_bps as int, min: self.min_bps as int, max: self.max_bps as int }
    }
}

impl AimdController {
    /// Create with initial, minimum, and maximum bitrates (bps).
    pub fn new(initial_bps: u64, min_bps: u64, max_bps: u64) -> (c: Self)
        ensures
            c@.bitrate == initial_bps,
            c@.min == min_bps,
            c@.max == max_bps,
    {
        AimdController { bitrate_bps: initial_bps, min_bps, max_bps }
    }

    /// Apply the AIMD step for a loss fraction that fell into `zone`;
    /// returns the new target bitrate.
    pub fn apply_loss_zone(&mut self, zone: LossZone) -> (r: u64)
        requires
            zone == LossZone::Low ==> old(self)@.bitrate + aimd_step(old(self)@.bitrate) <= u64::MAX,
        ensures
            final(self)@.bitrate == aimd_after_loss(old(self)@, zone),
            final(self)@.min == old(self)@.min,
            final(self)@.max == old(self)@.max,
            r == final(self)@.bitrate,
    {
        match zone {
            LossZone::Low => {
                let s = mul_8_percent(self.bitrate_bps);
                let step = if s > 8000 {
                    s
                } else {
                    8000
                };
                let i = self.bitrate_bps + step;
                self.bitrate_bps = if i < self.max_bps {
                    i
                } else {
                    self.max_bps
                };
            },
            LossZone::Neutral => {},
            LossZone::High => {
                self.bitrate_bps = self.decreased();
            },
        }
        self.bitrate_bps
    }

    /// Apply multiplicative decrease immediately (on delay overuse);
    /// returns the new target bitrate.
    pub fn on_overuse(&mut self) -> (r: u64)
        ensures
            final(self)@.bitrate == aimd_decrease(old(self)@.bitrate, old(self)@.min),
            final(self)@.min == old(self)@.min,
            final(self)@.max == old(self)@.max,
            r == final(self)@.bitrate,
    {
        self.bitrate_bps = self.decreased();
        self.bitrate_bps
    }

    /// The decreased bitrate.
    fn decreased(&self) -> (r: u64)
        ensures
            r == aimd_decrease(self@.bitrate, self@.min),
    {
        let d = mul_85_percent(self.bitrate_bps);
        if d > self.min_bps {
            d
        } else {
            self.min_bps
        }
    }

    /// Current target bitrate (bps).
    pub fn current(&self) -> (r: u64)
        ensures
            r == self@.bitrate,
    {
        self.bitrate_bps
    }
}

/// Every controller's bitrate, floor and ceiling are `u64` values.
pub proof fn lemma_aimd_view_fits(c: &AimdController)
    ensures
        0 <= c@.bitrate <= u64::MAX,
        0 <= c@.min <= u64::MAX,
        0 <= c@.max <= u64::MAX,
{
}

/// The controller stays within its bounds: from a bitrate in `[min, max]`,
/// every step (any loss zone, or an overuse decrease) lands in `[min, max]`;
/// a decrease never raises the bitrate and an increase never lowers it.
pub proof fn lemma_aimd_stays_in_bounds(m: AimdModel, zone: LossZone)
    requires
        0 <= m.min <= m.bitrate <= m.max,
    ensures
        m.min <= aimd_after_loss(m, zone) <= m.max,
        m.min <= aimd_decrease(m.bitrate, m.min) <= m.bitrate,
        m.bitrate <= aimd_increase(m.bitrate, m.max) <= m.max,
{
    assert(m.bitrate * 85 / 100 <= m.bitrate) by (nonlinear_arith)
        requires
            m.bitrate >= 0,
    ;
}

/// A decrease strictly lowers any bitrate above the floor, and an increase
/// strictly raises any bitrate below the ceiling.
pub proof fn lemma_aimd_moves(b: int, min: int, max: int)
    requires
        b > 0,
    ensures
        b > min ==> aimd_decrease(b, min) < b,
        b < max ==> aimd_increase(b, max) > b,
{
    assert(b * 85 / 100 < b) by (nonlinear_arith)
        requires
            b > 0,
    ;
}

} // verus!
