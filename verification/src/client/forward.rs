//! Per-subscriber forwarding state and the filter applied to every media
//! packet forwarded to the subscriber.
use vstd::prelude::*;

use crate::av1::Av1DdInfo;
use crate::bwe::hysteresis::{initial_pacer, pacer_next, PacerAction, PacerModel, SubscriberPacer};
use crate::bwe::pacer_config::default_pacer_config;
use crate::ids::SfuRid;
use crate::layer_selector::{best_fit, BestFitSelector};
use crate::vfm::FrameMarkingInfo;

verus! {

broadcast use crate::ids::lemma_rid_view;

/// What happens to one media packet offered to a subscriber.
#[derive(Debug, Clone, Copy, PartialEq, Eq, Structural)]
pub enum ForwardVerdict {
    /// Forward the packet.
    Forward,
    /// Dropped: the subscriber's video is suspended and the packet is (or may
    /// be) video.
    DropSuspendedVideo,
    /// Dropped: a simulcast packet on a layer other than the one selected.
    DropLayer,
    /// Dropped: the AV1 temporal layer exceeds the subscriber's cap.
    DropAv1TemporalLayer,
    /// Dropped: the frame-marking temporal layer exceeds the subscriber's cap.
    DropVfmTemporalLayer,
}

/// Outcome of offering one bandwidth estimate to a subscriber's pacer.
#[derive(Debug, Clone, Copy, PartialEq, Eq, Structural)]
pub enum PacerDrive {
    /// No estimate is known for the subscriber yet: the pacer is left alone
    /// (forwarding continues) rather than fed zero.
    NoEstimate,
    /// The minimum interval since the last advance has not passed.
    Throttled,
    /// The pacer advanced and returned this action.
    Driven(PacerAction),
}

/// The state of one subscriber's forwarding.
pub struct ForwardingModel {
    /// Preferred simulcast layer (bandwidth-adjusted when a pacer drives it).
    pub desired_layer: SfuRid,
    /// Last simulcast layer actually forwarded (`None` = none yet, or reset).
    pub chosen_rid: Option<SfuRid>,
    /// Layers the peer has been seen publishing, in first-seen order.
    pub active_rids: Seq<SfuRid>,
    /// The pacer.
    pub pacer: PacerModel,
    /// Video suspended for this subscriber.
    pub suspended: bool,
    /// Highest AV1 temporal layer forwarded.
    pub max_temporal_layer: u8,
    /// Highest frame-marking temporal layer forwarded.
    pub max_vfm_temporal_layer: u8,
    /// Millisecond timestamp of the last pacer advance, if any.
    pub last_pacer_drive_ms: Option<u64>,
}

/// The verdict for a packet with layer `rid`, AV1 descriptor `av1`, frame
/// marking `vfm`, whose media kind is video (`Some(true)`), audio
/// (`Some(false)`) or unknown (`None`, treated as video).
pub open spec fn forward_verdict_of(
    m: ForwardingModel,
    kind_is_video: Option<bool>,
    rid: Option<SfuRid>,
    av1: Option<Av1DdInfo>,
    vfm: Option<FrameMarkingInfo>,
) -> ForwardVerdict {
    let is_video = match kind_is_video {
        Some(v) => v,
        None => true,
    };
    if m.suspended && is_video {
        ForwardVerdict::DropSuspendedVideo
    } else if rid matches Some(r) && r != best_fit(m.desired_layer, m.active_rids) {
        ForwardVerdict::DropLayer
    } else if av1 matches Some(dd) && dd.temporal_id > m.max_temporal_layer {
        ForwardVerdict::DropAv1TemporalLayer
    } else if vfm matches Some(fm) && fm.temporal_id > m.max_vfm_temporal_layer {
        ForwardVerdict::DropVfmTemporalLayer
    } else {
        ForwardVerdict::Forward
    }
}

/// Per-subscriber forwarding state.
#[derive(Debug)]
pub struct SubscriberForwarding {
    desired_layer: SfuRid,
    chosen_rid: Option<SfuRid>,
    active_rids: Vec<SfuRid>,
    pacer: SubscriberPacer,
    suspended: bool,
    max_temporal_layer: u8,
    max_vfm_temporal_layer: u8,
    last_pacer_drive_ms: Option<u64>,
}

impl View for SubscriberForwarding {
    type V = ForwardingModel;

    closed spec fn view(&self) -> ForwardingModel {
        ForwardingModel {
            desired_layer: self.desired_layer,
            chosen_rid: self.chosen_rid,
            active_rids: self.active_rids@,
            pacer: self.pacer@,
            suspended: self.suspended,
            max_temporal_layer: self.max_temporal_layer,
            max_vfm_temporal_layer: self.max_vfm_temporal_layer,
            last_pacer_drive_ms: self.last_pacer_drive_ms,
        }
    }
}

/// `m` after its pacer is fed `bps`: the pacer steps, and a layer change
/// becomes the desired layer.
pub open spec fn after_pacer_step(m: ForwardingModel, bps: u64) -> ForwardingModel {
    let stepped = ForwardingModel { pacer: pacer_next(m.pacer, bps).0, ..m };
    match pacer_next(m.pacer, bps).1 {
        PacerAction::ChangeLayer(rid) => with_desired_layer(stepped, rid),
        _ => stepped,
    }
}

/// Whether a pacer last advanced at `last` (`None` = never) may advance
/// again at `now`: when at least `interval` has passed (a clock that reads
/// earlier than `last` counts as no time passed).
pub open spec fn pacer_tick_due(last: Option<u64>, now: u64, interval: u64) -> bool {
    match last {
        None => true,
        Some(t) => (if now >= t {
            now - t
        } else {
            0
        }) >= interval,
    }
}

/// The min-tick floor: two successive advances of a pacer, the second at a
/// time no earlier than the first, are at least `interval` apart; the first
/// advance of a pacer is never held back.
pub proof fn lemma_min_tick_floor(t1: u64, t2: u64, interval: u64)
    requires
        t1 <= t2,
        pacer_tick_due(Some(t1), t2, interval),
    ensures
        t2 - t1 >= interval,
        pacer_tick_due(None, t1, interval),
{
}

/// `m` after the desired layer is set to `rid`: the chosen layer is reset.
pub open spec fn with_desired_layer(m: ForwardingModel, rid: SfuRid) -> ForwardingModel {
    ForwardingModel { desired_layer: rid, chosen_rid: None, ..m }
}

impl SubscriberForwarding {
    /// Fresh state: desired layer LOW, nothing seen, default pacer, video on,
    /// all temporal layers forwarded.
    pub fn new() -> (s: Self)
        ensures
            s@.desired_layer == SfuRid::spec_low(),
            s@.chosen_rid is None,
            s@.active_rids.len() == 0,
            s@.pacer == initial_pacer(default_pacer_config()),
            !s@.suspended,
            s@.max_temporal_layer == u8::MAX,
            s@.max_vfm_temporal_layer == u8::MAX,
            s@.last_pacer_drive_ms is None,
    {
        SubscriberForwarding {
            desired_layer: SfuRid::low(),
            chosen_rid: None,
            active_rids: Vec::new(),
            pacer: SubscriberPacer::new(),
            suspended: false,
            max_temporal_layer: u8::MAX,
            max_vfm_temporal_layer: u8::MAX,
            last_pacer_drive_ms: None,
        }
    }

    /// This subscriber's current desired simulcast layer.
    pub fn desired_layer(&self) -> (r: SfuRid)
        ensures
            r == self@.desired_layer,
    {
        self.desired_layer
    }

    /// Override the desired simulcast layer; the last forwarded layer is
    /// forgotten so keyframe requests target the new layer.
    pub fn set_desired_layer(&mut self, rid: SfuRid)
        ensures
            final(self)@ == with_desired_layer(old(self)@, rid),
    {
        self.desired_layer = rid;
        self.chosen_rid = None;
    }

    /// Last simulcast layer forwarded, if any.
    pub fn chosen_rid(&self) -> (r: Option<SfuRid>)
        ensures
            r == self@.chosen_rid,
    {
        self.chosen_rid
    }

    /// Remember the layer of a packet just forwarded (packets without a
    /// layer leave the record as it is).
    pub fn note_forwarded_rid(&mut self, rid: Option<SfuRid>)
        ensures
            final(self)@ == (ForwardingModel {
                chosen_rid: if rid is Some {
                    rid
                } else {
                    old(self)@.chosen_rid
                },
                ..old(self)@
            }),
    {
        if rid.is_some() {
            self.chosen_rid = rid;
        }
    }

    /// Layers the peer has been seen publishing, in first-seen order.
    pub fn active_rids(&self) -> (r: Vec<SfuRid>)
        ensures
            r@ == self@.active_rids,
    {
        self.active_rids.clone()
    }

    /// Record that the peer published on layer `rid`; the set of seen layers
    /// gains `rid` if it was not in it.
    pub fn record_active_rid(&mut self, rid: SfuRid)
        ensures
            final(self)@ == (ForwardingModel {
                active_rids: if old(self)@.active_rids.contains(rid) {
                    old(self)@.active_rids
                } else {
                    old(self)@.active_rids.push(rid)
                },
                ..old(self)@
            }),
    {
        let mut i: usize = 0;
        while i < self.active_rids.len()
            invariant
                i <= self.active_rids@.len(),
                forall|k: int| 0 <= k < i ==> self.active_rids@[k] != rid,
            decreases self.active_rids@.len() - i,
        {
            if self.active_rids[i] == rid {
                assert(self.active_rids@[i as int] == rid);
                return;
            }
            i = i + 1;
        }
        self.active_rids.push(rid);
    }

    /// Feed an egress bandwidth reading to the pacer. A layer change also
    /// becomes the new desired layer.
    pub fn drive_pacer(&mut self, bps: u64) -> (action: PacerAction)
        ensures
            action == pacer_next(old(self)@.pacer, bps).1,
            final(self)@ == after_pacer_step(old(self)@, bps),
            final(self)@.pacer == pacer_next(old(self)@.pacer, bps).0,
            action matches PacerAction::ChangeLayer(t) ==> final(self)@.desired_layer == t
                && final(self)@.chosen_rid is None,
            !(action is ChangeLayer) ==> final(self)@.desired_layer == old(self)@.desired_layer
                && final(self)@.chosen_rid == old(self)@.chosen_rid,
    {
        let action = self.pacer.update(bps);
        if let PacerAction::ChangeLayer(rid) = action {
            self.set_desired_layer(rid);
        }
        action
    }

    /// Whether the pacer may advance at `now_ms` given a minimum interval;
    /// when it may, `now_ms` is recorded as the last advance.
    pub fn pacer_tick_ready(&mut self, now_ms: u64, min_interval_ms: u64) -> (ready: bool)
        ensures
            ready == pacer_tick_due(old(self)@.last_pacer_drive_ms, now_ms, min_interval_ms),
            final(self)@ == (ForwardingModel {
                last_pacer_drive_ms: if ready {
                    Some(now_ms)
                } else {
                    old(self)@.last_pacer_drive_ms
                },
                ..old(self)@
            }),
    {
        let ready = match self.last_pacer_drive_ms {
            None => true,
            Some(last) => {
                let elapsed = if now_ms >= last {
                    now_ms - last
                } else {
                    0
                };
                elapsed >= min_interval_ms
            },
        };
        if ready {
            self.last_pacer_drive_ms = Some(now_ms);
        }
        ready
    }

    /// Offer a combined bandwidth estimate (if one is known) to the pacer,
    /// advancing it at most once per `min_interval_ms`.
    pub fn drive_from_estimate(
        &mut self,
        estimate: Option<u64>,
        now_ms: u64,
        min_interval_ms: u64,
    ) -> (d: PacerDrive)
        ensures
            match estimate {
                None => d == PacerDrive::NoEstimate && final(self)@ == old(self)@,
                Some(bps) => if pacer_tick_due(old(self)@.last_pacer_drive_ms, now_ms, min_interval_ms) {
                    &&& d == PacerDrive::Driven(pacer_next(old(self)@.pacer, bps).1)
                    &&& final(self)@ == after_pacer_step(
                        ForwardingModel { last_pacer_drive_ms: Some(now_ms), ..old(self)@ },
                        bps,
                    )
                } else {
                    d == PacerDrive::Throttled && final(self)@ == old(self)@
                },
            },
    {
        let bps = match estimate {
            None => return PacerDrive::NoEstimate,
            Some(b) => b,
        };
        if !self.pacer_tick_ready(now_ms, min_interval_ms) {
            return PacerDrive::Throttled;
        }
        PacerDrive::Driven(self.drive_pacer(bps))
    }

    /// Whether video is suspended for this subscriber.
    pub fn suspended(&self) -> (r: bool)
        ensures
            r == self@.suspended,
    {
        self.suspended
    }

    /// Suspend or resume video for this subscriber.
    pub fn set_suspended(&mut self, suspended: bool)
        ensures
            final(self)@ == (ForwardingModel { suspended, ..old(self)@ }),
    {
        self.suspended = suspended;
    }

    /// Set the highest AV1 temporal layer forwarded.
    pub fn set_max_temporal_layer(&mut self, max: u8)
        ensures
            final(self)@ == (ForwardingModel { max_temporal_layer: max, ..old(self)@ }),
    {
        self.max_temporal_layer = max;
    }

    /// The highest AV1 temporal layer forwarded.
    pub fn max_temporal_layer(&self) -> (r: u8)
        ensures
            r == self@.max_temporal_layer,
    {
        self.max_temporal_layer
    }

    /// Set the highest frame-marking temporal layer forwarded.
    pub fn set_max_vfm_temporal_layer(&mut self, max: u8)
        ensures
            final(self)@ == (ForwardingModel { max_vfm_temporal_layer: max, ..old(self)@ }),
    {
        self.max_vfm_temporal_layer = max;
    }

    /// The highest frame-marking temporal layer forwarded.
    pub fn max_vfm_temporal_layer(&self) -> (r: u8)
        ensures
            r == self@.max_vfm_temporal_layer,
    {
        self.max_vfm_temporal_layer
    }

    /// The pacer.
    pub fn pacer(&self) -> (p: &SubscriberPacer)
        ensures
            p@ == self@.pacer,
    {
        &self.pacer
    }

    /// Decide whether a media packet is forwarded to this subscriber.
    ///
    /// In order: a suspended subscriber drops video (and packets of unknown
    /// kind); a simulcast packet is kept only on the layer the best-fit
    /// selector picks for the desired layer among the active ones; packets
    /// above the subscriber's AV1 or frame-marking temporal caps are dropped.
    pub fn forward_verdict(
        &self,
        kind_is_video: Option<bool>,
        rid: Option<SfuRid>,
        av1: Option<Av1DdInfo>,
        vfm: Option<FrameMarkingInfo>,
    ) -> (v: ForwardVerdict)
        ensures
            v == forward_verdict_of(self@, kind_is_video, rid, av1, vfm),
    {
        let is_video = match kind_is_video {
            Some(v) => v,
            None => true,
        };
        if self.suspended && is_video {
            return ForwardVerdict::DropSuspendedVideo;
        }
        let target = BestFitSelector.best_fit(self.desired_layer, self.active_rids.as_slice());
        if let Some(r) = rid {
            if r != target {
                return ForwardVerdict::DropLayer;
            }
        }
        if let Some(dd) = av1 {
            if dd.temporal_id > self.max_temporal_layer {
                return ForwardVerdict::DropAv1TemporalLayer;
            }
        }
        if let Some(fm) = vfm {
            if fm.temporal_id > self.max_vfm_temporal_layer {
                return ForwardVerdict::DropVfmTemporalLayer;
            }
        }
        ForwardVerdict::Forward
    }
}

/// A subscriber whose video is suspended never gets a video packet (or one
/// of unknown kind) forwarded; a forwarded simulcast packet is always on the
/// layer the best-fit selector picks; a forwarded packet never exceeds the
/// subscriber's temporal-layer caps.
pub proof fn lemma_forwarding_filter(
    m: ForwardingModel,
    kind_is_video: Option<bool>,
    rid: Option<SfuRid>,
    av1: Option<Av1DdInfo>,
    vfm: Option<FrameMarkingInfo>,
)
    requires
        forward_verdict_of(m, kind_is_video, rid, av1, vfm) == ForwardVerdict::Forward,
    ensures
        m.suspended ==> kind_is_video == Some(false),
        rid matches Some(r) ==> r == best_fit(m.desired_layer, m.active_rids),
        av1 matches Some(dd) ==> dd.temporal_id <= m.max_temporal_layer,
        vfm matches Some(fm) ==> fm.temporal_id <= m.max_vfm_temporal_layer,
{
}

/// The filter forwards exactly the packets that pass every check: a packet
/// is forwarded if and only if the subscriber is not suspended or the packet
/// is audio, it carries no layer or the best-fit one, and its AV1 and
/// frame-marking temporal ids (when present) are within the caps. Nothing
/// else about a packet (such as a discardable mark) causes a drop, and a
/// dropped packet is reported with the first check it fails, in that order.
pub proof fn lemma_forwarding_filter_exact(
    m: ForwardingModel,
    kind_is_video: Option<bool>,
    rid: Option<SfuRid>,
    av1: Option<Av1DdInfo>,
    vfm: Option<FrameMarkingInfo>,
)
    ensures
        (forward_verdict_of(m, kind_is_video, rid, av1, vfm) == ForwardVerdict::Forward) <==> ({
            &&& (!m.suspended || kind_is_video == Some(false))
            &&& (rid matches Some(r) ==> r == best_fit(m.desired_layer, m.active_rids))
            &&& (av1 matches Some(dd) ==> dd.temporal_id <= m.max_temporal_layer)
            &&& (vfm matches Some(fm) ==> fm.temporal_id <= m.max_vfm_temporal_layer)
        }),
        forward_verdict_of(m, kind_is_video, rid, av1, vfm) == ForwardVerdict::DropSuspendedVideo
            <==> (m.suspended && kind_is_video != Some(false)),
        forward_verdict_of(m, kind_is_video, rid, av1, vfm) == ForwardVerdict::DropLayer <==> ({
            &&& (!m.suspended || kind_is_video == Some(false))
            &&& (rid matches Some(r) && r != best_fit(m.desired_layer, m.active_rids))
        }),
        forward_verdict_of(m, kind_is_video, rid, av1, vfm) == ForwardVerdict::DropAv1TemporalLayer
            <==> ({
            &&& (!m.suspended || kind_is_video == Some(false))
            &&& (rid matches Some(r) ==> r == best_fit(m.desired_layer, m.active_rids))
            &&& (av1 matches Some(dd) && dd.temporal_id > m.max_temporal_layer)
        }),
        forward_verdict_of(m, kind_is_video, rid, av1, vfm) == ForwardVerdict::DropVfmTemporalLayer
            <==> ({
            &&& (!m.suspended || kind_is_video == Some(false))
            &&& (rid matches Some(r) ==> r == best_fit(m.desired_layer, m.active_rids))
            &&& (av1 matches Some(dd) ==> dd.temporal_id <= m.max_temporal_layer)
            &&& (vfm matches Some(fm) && fm.temporal_id > m.max_vfm_temporal_layer)
        }),
{
}

/// Feeding the pacer keeps the subscriber's desired layer in step with it:
/// whenever the pacer's step changes the layer to `t` (down as well as up),
/// the desired layer becomes `t` and the last forwarded layer is forgotten;
/// any other step leaves both as they were. Only the pacer changes besides.
pub proof fn lemma_pacer_change_sets_desired_layer(m: ForwardingModel, bps: u64)
    ensures
        after_pacer_step(m, bps).pacer == pacer_next(m.pacer, bps).0,
        pacer_next(m.pacer, bps).1 matches PacerAction::ChangeLayer(t) ==> after_pacer_step(
            m,
            bps,
        ).desired_layer == t && after_pacer_step(m, bps).chosen_rid is None,
        !(pacer_next(m.pacer, bps).1 is ChangeLayer) ==> after_pacer_step(m, bps).desired_layer
            == m.desired_layer && after_pacer_step(m, bps).chosen_rid == m.chosen_rid,
        after_pacer_step(m, bps).active_rids == m.active_rids,
        after_pacer_step(m, bps).suspended == m.suspended,
        after_pacer_step(m, bps).max_temporal_layer == m.max_temporal_layer,
        after_pacer_step(m, bps).max_vfm_temporal_layer == m.max_vfm_temporal_layer,
        after_pacer_step(m, bps).last_pacer_drive_ms == m.last_pacer_drive_ms,
{
}

} // verus!
