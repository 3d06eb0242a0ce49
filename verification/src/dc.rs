//! DataChannel configuration descriptors.
//!
//! One `ChannelConfig` is recorded per pre-registered DataChannel; the
//! signalling layer reads them during offer/answer and opens the streams.
use vstd::prelude::*;

verus! {

/// Stable configuration descriptor for a DataChannel pre-registration.
///
/// Invariant kept by the constructors: at most one of
/// `max_packet_lifetime_ms` and `max_retransmits` is `Some` (both `None` for
/// reliable channels).
#[derive(Debug, Clone, PartialEq, Eq)]
pub struct ChannelConfig {
    pub(crate) id: u16,
    pub(crate) label: String,
    pub(crate) ordered: bool,
    pub(crate) max_packet_lifetime_ms: Option<u32>,
    pub(crate) max_retransmits: Option<u16>,
}

/// The contents of a [`ChannelConfig`].
pub struct ChannelConfigView {
    /// SCTP stream identifier.
    pub id: u16,
    /// Channel label.
    pub label: Seq<char>,
    /// In-order delivery required.
    pub ordered: bool,
    /// Maximum packet lifetime (ms), for lifetime-limited channels.
    pub max_packet_lifetime_ms: Option<u32>,
    /// Maximum retransmits, for retransmit-limited channels.
    pub max_retransmits: Option<u16>,
}

/// At most one reliability limit is set.
pub open spec fn one_reliability_limit(v: ChannelConfigView) -> bool {
    v.max_packet_lifetime_ms is None || v.max_retransmits is None
}

impl View for ChannelConfig {
    type V = ChannelConfigView;

    closed spec fn view(&self) -> ChannelConfigView {
        ChannelConfigView {
            id: self.id,
            label: self.label@,
            ordered: self.ordered,
            max_packet_lifetime_ms: self.max_packet_lifetime_ms,
            max_retransmits: self.max_retransmits,
        }
    }
}

impl ChannelConfig {
    /// Reliable, ordered DataChannel (TCP-like semantics).
    pub fn reliable_ordered() -> (c: Self)
        ensures
            c@.id == 0,
            c@.label.len() == 0,
            c@.ordered,
            c@.max_packet_lifetime_ms is None,
            c@.max_retransmits is None,
    {
        Self {
            id: 0,
            label: String::new(),
            ordered: true,
            max_packet_lifetime_ms: None,
            max_retransmits: None,
        }
    }

    /// Unordered, unreliable DataChannel with a max-retransmit count
    /// (`0` = fire-and-forget).
    pub fn unreliable_max_retransmits(retransmits: u16) -> (c: Self)
        ensures
            c@.id == 0,
            c@.label.len() == 0,
            !c@.ordered,
            c@.max_packet_lifetime_ms is None,
            c@.max_retransmits == Some(retransmits),
    {
        Self {
            id: 0,
            label: String::new(),
            ordered: false,
            max_packet_lifetime_ms: None,
            max_retransmits: Some(retransmits),
        }
    }

    /// Unordered, unreliable DataChannel with a max packet lifetime (ms).
    pub fn unreliable_max_lifetime(lifetime_ms: u32) -> (c: Self)
        ensures
            c@.id == 0,
            c@.label.len() == 0,
            !c@.ordered,
            c@.max_packet_lifetime_ms == Some(lifetime_ms),
            c@.max_retransmits is None,
    {
        Self {
            id: 0,
            label: String::new(),
            ordered: false,
            max_packet_lifetime_ms: Some(lifetime_ms),
            max_retransmits: None,
        }
    }

    /// SCTP stream identifier.
    pub fn id(&self) -> (r: u16)
        ensures
            r == self@.id,
    {
        self.id
    }

    /// Human-readable channel label.
    pub fn label(&self) -> (r: &str)
        ensures
            r@ == self@.label,
    {
        self.label.as_str()
    }

    /// Whether in-order delivery is required.
    pub fn ordered(&self) -> (r: bool)
        ensures
            r == self@.ordered,
    {
        self.ordered
    }

    /// Maximum packet lifetime in milliseconds, if set.
    pub fn max_packet_lifetime_ms(&self) -> (r: Option<u32>)
        ensures
            r == self@.max_packet_lifetime_ms,
    {
        self.max_packet_lifetime_ms
    }

    /// Maximum number of retransmits before discarding, if set.
    pub fn max_retransmits(&self) -> (r: Option<u16>)
        ensures
            r == self@.max_retransmits,
    {
        self.max_retransmits
    }

    /// This configuration registered as channel `id` with label `label`.
    pub fn registered_as(self, label: &str, id: u16) -> (c: Self)
        ensures
            c@.id == id,
            c@.label == label@,
            c@.ordered == self@.ordered,
            c@.max_packet_lifetime_ms == self@.max_packet_lifetime_ms,
            c@.max_retransmits == self@.max_retransmits,
    {
        let mut c = self;
        c.id = id;
        c.label = label.to_owned();
        c
    }
}

} // verus!
