//! Keyframe request types.
use vstd::prelude::*;

use crate::ids::{SfuMid, SfuRid};

verus! {

/// The kind of keyframe request (RTCP PLI or FIR).
#[derive(Debug, Clone, Copy, PartialEq, Eq, Structural)]
#[non_exhaustive]
pub enum SfuKeyframeKind {
    /// Picture Loss Indication.
    Pli,
    /// Full Intra Request.
    Fir,
}

/// A keyframe request for one media stream (and optionally one simulcast layer).
#[derive(Debug, Clone, Copy, PartialEq, Eq, Structural)]
pub struct SfuKeyframeRequest {
    mid: SfuMid,
    rid: Option<SfuRid>,
    kind: SfuKeyframeKind,
}

impl SfuKeyframeRequest {
    /// A request for `kind` on stream `mid`, layer `rid`.
    pub fn new(mid: SfuMid, rid: Option<SfuRid>, kind: SfuKeyframeKind) -> (r: Self)
        ensures
            r.spec_mid() == mid,
            r.spec_rid() == rid,
            r.spec_kind() == kind,
    {
        Self { mid, rid, kind }
    }

    /// A request for `kind` on stream `mid`, layer `rid` (test seam).
    pub fn new_for_tests(mid: SfuMid, rid: Option<SfuRid>, kind: SfuKeyframeKind) -> (r: Self)
        ensures
            r.spec_mid() == mid,
            r.spec_rid() == rid,
            r.spec_kind() == kind,
    {
        Self::new(mid, rid, kind)
    }

    /// The requested stream.
    pub closed spec fn spec_mid(&self) -> SfuMid {
        self.mid
    }

    /// The requested layer, if any.
    pub closed spec fn spec_rid(&self) -> Option<SfuRid> {
        self.rid
    }

    /// The request kind.
    pub closed spec fn spec_kind(&self) -> SfuKeyframeKind {
        self.kind
    }

    /// The requested stream.
    pub fn mid(&self) -> (m: SfuMid)
        ensures
            m == self.spec_mid(),
    {
        self.mid
    }

    /// The requested layer, if any.
    pub fn rid(&self) -> (r: Option<SfuRid>)
        ensures
            r == self.spec_rid(),
    {
        self.rid
    }

    /// The request kind.
    pub fn kind(&self) -> (k: SfuKeyframeKind)
        ensures
            k == self.spec_kind(),
    {
        self.kind
    }
}

} // verus!
