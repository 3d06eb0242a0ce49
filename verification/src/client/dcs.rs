//! The DataChannels a client pre-registers for SDP negotiation.
use vstd::prelude::*;
use vstd::string::StringSliceAdditionalSpecFns;

use crate::dc::{one_reliability_limit, ChannelConfig, ChannelConfigView};

verus! {

/// Ordered list of pre-registered DataChannels, unique by id.
#[derive(Debug, Clone)]
pub struct DataChannelList {
    dcs: Vec<ChannelConfig>,
}

/// Whether some registered channel has id `id`.
pub open spec fn has_dc_id(s: Seq<ChannelConfigView>, id: u16) -> bool {
    exists|i: int| 0 <= i < s.len() && (#[trigger] s[i]).id == id
}

/// A well-formed channel list: ids are unique and no channel sets both a
/// packet lifetime and a retransmit limit.
pub open spec fn dc_list_wf(s: Seq<ChannelConfigView>) -> bool {
    &&& forall|i: int, j: int| 0 <= i < j < s.len() ==> (#[trigger] s[i]).id != (#[trigger] s[j]).id
    &&& forall|i: int| 0 <= i < s.len() ==> one_reliability_limit(#[trigger] s[i])
}

/// `cfg` as registered under `label` and `id`.
pub open spec fn registered(cfg: ChannelConfigView, label: Seq<char>, id: u16) -> ChannelConfigView {
    ChannelConfigView {
        id,
        label,
        ordered: cfg.ordered,
        max_packet_lifetime_ms: cfg.max_packet_lifetime_ms,
        max_retransmits: cfg.max_retransmits,
    }
}

/// Index of the first channel labelled `label`, if any.
pub open spec fn first_with_label(s: Seq<ChannelConfigView>, label: Seq<char>) -> Option<int>
    decreases s.len(),
{
    if s.len() == 0 {
        None
    } else if s[0].label == label {
        Some(0)
    } else {
        match first_with_label(s.drop_first(), label) {
            Some(i) => Some(i + 1),
            None => None,
        }
    }
}

impl View for DataChannelList {
    type V = Seq<ChannelConfigView>;

    closed spec fn view(&self) -> Seq<ChannelConfigView> {
        self.dcs@.map_values(|c: ChannelConfig| c@)
    }
}

impl DataChannelList {
    /// No channels.
    pub fn new() -> (l: Self)
        ensures
            l@.len() == 0,
            dc_list_wf(l@),
    {
        DataChannelList { dcs: Vec::new() }
    }

    /// Register `cfg` as channel `id` labelled `label`, appended after the
    /// existing ones. The id must be new and `cfg` must set at most one
    /// reliability limit.
    pub fn with_extra_dc(self, label: &str, id: u16, cfg: ChannelConfig) -> (l: Self)
        requires
            !has_dc_id(self@, id),
            one_reliability_limit(cfg@),
        ensures
            l@ == self@.push(registered(cfg@, label@, id)),
            dc_list_wf(self@) ==> dc_list_wf(l@),
    {
        let mut dcs = self.dcs;
        let entry = cfg.registered_as(label, id);
        dcs.push(entry);
        let l = DataChannelList { dcs };
        assert(l@ =~= self@.push(registered(cfg@, label@, id)));
        proof {
            if dc_list_wf(self@) {
                assert forall|i: int, j: int| 0 <= i < j < l@.len() implies (#[trigger] l@[i]).id
                    != (#[trigger] l@[j]).id by {
                    if j == self@.len() {
                        assert(l@[i] == self@[i]);
                    } else {
                        assert(l@[i] == self@[i] && l@[j] == self@[j]);
                    }
                }
                assert forall|i: int| 0 <= i < l@.len() implies one_reliability_limit(
                    #[trigger] l@[i],
                ) by {
                    if i < self@.len() {
                        assert(l@[i] == self@[i]);
                    }
                }
            }
        }
        l
    }

    /// Register the chat channels: `chat-data` (id 4, reliable ordered) and
    /// `chat-ctrl` (id 5, unreliable, 0 retransmits).
    pub fn with_chat_dcs(self) -> (l: Self)
        requires
            !has_dc_id(self@, 4),
            !has_dc_id(self@, 5),
        ensures
            l@.len() == self@.len() + 2,
            l@.subrange(0, self@.len() as int) == self@,
            l@[self@.len() as int].id == 4 && l@[self@.len() as int].ordered
                && l@[self@.len() as int].max_retransmits is None
                && l@[self@.len() as int].max_packet_lifetime_ms is None,
            l@[self@.len() as int + 1].id == 5 && !l@[self@.len() as int + 1].ordered && l@[self@.len() as int + 1].max_retransmits == Some(0u16) && l@[self@.len() as int + 1].max_packet_lifetime_ms is None,
            dc_list_wf(self@) ==> dc_list_wf(l@),
            l@[self@.len() as int].label == "chat-data"@,
            l@[self@.len() as int + 1].label == "chat-ctrl"@,
    {
        let l1 = self.with_extra_dc("chat-data", 4, ChannelConfig::reliable_ordered());
        assert(!has_dc_id(l1@, 5)) by {
            if has_dc_id(l1@, 5) {
                let i = choose|i: int| 0 <= i < l1@.len() && (#[trigger] l1@[i]).id == 5;
                if i < self@.len() {
                    assert(self@[i] == l1@[i]);
                }
            }
        }
        let l2 = l1.with_extra_dc("chat-ctrl", 5, ChannelConfig::unreliable_max_retransmits(0));
        assert(l2@.subrange(0, self@.len() as int) =~= self@);
        l2
    }

    /// Register the voice channel `voice` (id 6): unordered, with the given
    /// maximum packet lifetime.
    pub fn with_voice_dc(self, max_pkt_lifetime_ms: u32) -> (l: Self)
        requires
            !has_dc_id(self@, 6),
        ensures
            l@.len() == self@.len() + 1,
            l@.subrange(0, self@.len() as int) == self@,
            l@[self@.len() as int].id == 6 && !l@[self@.len() as int].ordered && l@[self@.len() as int].max_packet_lifetime_ms
                == Some(max_pkt_lifetime_ms) && l@[self@.len() as int].max_retransmits is None,
            dc_list_wf(self@) ==> dc_list_wf(l@),
            l@[self@.len() as int].label == "voice"@,
    {
        let l = self.with_extra_dc(
            "voice",
            6,
            ChannelConfig::unreliable_max_lifetime(max_pkt_lifetime_ms),
        );
        assert(l@.subrange(0, self@.len() as int) =~= self@);
        l
    }

    /// The first channel registered with label `label`, if any.
    pub fn dc_config_for(&self, label: &str) -> (r: Option<&ChannelConfig>)
        ensures
            match first_with_label(self@, label@) {
                None => r is None,
                Some(i) => r matches Some(c) && c@ == self@[i],
            },
    {
        let mut i: usize = 0;
        assert(self@.subrange(0, self@.len() as int) =~= self@);
        while i < self.dcs.len()
            invariant
                i <= self.dcs@.len(),
                first_with_label(self@, label@) == (match first_with_label(
                    self@.subrange(i as int, self@.len() as int),
                    label@,
                ) {
                    Some(j) => Some(j + i),
                    None => None,
                }),
            decreases self.dcs@.len() - i,
        {
            let c = &self.dcs[i];
            let ghost sub = self@.subrange(i as int, self@.len() as int);
            assert(sub[0] == c@);
            assert(sub.drop_first() =~= self@.subrange(i + 1, self@.len() as int));
            if str_eq(c.label(), label) {
                return Some(c);
            }
            i = i + 1;
        }
        assert(self@.subrange(i as int, self@.len() as int).len() == 0);
        None
    }

    /// Whether a channel with id `id` is registered.
    pub fn has_id(&self, id: u16) -> (r: bool)
        ensures
            r == has_dc_id(self@, id),
    {
        let mut i: usize = 0;
        while i < self.dcs.len()
            invariant
                i <= self.dcs@.len(),
                forall|k: int| 0 <= k < i ==> (#[trigger] self@[k]).id != id,
            decreases self.dcs@.len() - i,
        {
            if self.dcs[i].id() == id {
                assert(self@[i as int].id == id);
                return true;
            }
            i = i + 1;
        }
        false
    }

    /// Number of registered channels.
    pub fn dc_count(&self) -> (n: usize)
        ensures
            n == self@.len(),
    {
        self.dcs.len()
    }

    /// The registered channels, in registration order.
    pub fn as_slice(&self) -> (s: &[ChannelConfig])
        ensures
            s@.map_values(|c: ChannelConfig| c@) == self@,
    {
        self.dcs.as_slice()
    }
}

/// Whether two strings are equal.
fn str_eq(a: &str, b: &str) -> (r: bool)
    ensures
        r == (a@ == b@),
{
    let x = a.as_bytes();
    let y = b.as_bytes();
    proof {
        vstd::utf8::encode_utf8_decode_utf8(a@);
        vstd::utf8::encode_utf8_decode_utf8(b@);
    }
    if x.len() != y.len() {
        return false;
    }
    let mut i: usize = 0;
    while i < x.len()
        invariant
            x@ == a.spec_bytes(),
            y@ == b.spec_bytes(),
            x@.len() == y@.len(),
            i <= x@.len(),
            forall|k: int| 0 <= k < i ==> x@[k] == y@[k],
        decreases x@.len() - i,
    {
        if x[i] != y[i] {
            assert(x@ != y@);
            return false;
        }
        i = i + 1;
    }
    assert(x@ =~= y@);
    true
}

} // verus!
