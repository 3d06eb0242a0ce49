//! Cross-client event fanout: which clients receive a propagated event.
use vstd::prelude::*;

use crate::propagate::ClientId;

verus! {

/// What the fanout needs to know of a propagated event to route it.
#[derive(Debug, Clone, Copy, PartialEq, Eq, Structural)]
pub enum FanoutEvent {
    /// The dominant speaker changed to `speaker`.
    ActiveSpeakerChanged { speaker: ClientId },
    /// `origin` opened a track.
    TrackOpen { origin: ClientId },
    /// `origin` published a media packet.
    MediaData { origin: ClientId },
    /// A subscriber (`origin`) asked the publisher `source` for a keyframe.
    KeyframeRequest { origin: ClientId, source: ClientId },
    /// An event that is not forwarded to other clients.
    Local,
}

/// Whether client `c` receives `e`: everyone but the new speaker hears of a
/// speaker change; tracks and media go to everyone but their origin; a
/// keyframe request goes only to its source publisher (never back to the
/// requester); local events go to no one.
pub open spec fn receives(e: FanoutEvent, c: ClientId) -> bool {
    match e {
        FanoutEvent::ActiveSpeakerChanged { speaker } => c != speaker,
        FanoutEvent::TrackOpen { origin } => c != origin,
        FanoutEvent::MediaData { origin } => c != origin,
        FanoutEvent::KeyframeRequest { origin, source } => c != origin && c == source,
        FanoutEvent::Local => false,
    }
}

/// The positions in `clients` of the clients that receive `e`, in order.
pub open spec fn fanout_positions(e: FanoutEvent, clients: Seq<ClientId>) -> Seq<usize>
    decreases clients.len(),
{
    if clients.len() == 0 {
        seq![]
    } else {
        let before = fanout_positions(e, clients.drop_last());
        if receives(e, clients.last()) {
            before.push((clients.len() - 1) as usize)
        } else {
            before
        }
    }
}

/// The positions of the clients (by id, in room order) to which `e` is
/// delivered, in room order.
pub fn fanout_targets(e: FanoutEvent, clients: &[ClientId]) -> (r: Vec<usize>)
    ensures
        r@ == fanout_positions(e, clients@),
{
    let mut r: Vec<usize> = Vec::new();
    let mut i: usize = 0;
    while i < clients.len()
        invariant
            i <= clients@.len(),
            r@ == fanout_positions(e, clients@.subrange(0, i as int)),
        decreases clients@.len() - i,
    {
        let c = clients[i];
        let yes = match e {
            FanoutEvent::ActiveSpeakerChanged { speaker } => c != speaker,
            FanoutEvent::TrackOpen { origin } => c != origin,
            FanoutEvent::MediaData { origin } => c != origin,
            FanoutEvent::KeyframeRequest { origin, source } => c != origin && c == source,
            FanoutEvent::Local => false,
        };
        let ghost next = clients@.subrange(0, i + 1);
        assert(next.drop_last() =~= clients@.subrange(0, i as int));
        assert(next.last() == c);
        if yes {
            r.push(i);
        }
        i = i + 1;
    }
    assert(clients@.subrange(0, clients@.len() as int) =~= clients@);
    r
}

/// Every position of `fanout_positions` is in range, the positions strictly
/// increase, and a position is listed exactly when its client receives.
pub proof fn lemma_fanout_positions(e: FanoutEvent, clients: Seq<ClientId>)
    requires
        clients.len() <= usize::MAX,
    ensures
        forall|k: int|
            0 <= k < fanout_positions(e, clients).len() ==> (#[trigger] fanout_positions(e, clients)[k])
                < clients.len() && receives(e, clients[fanout_positions(e, clients)[k] as int]),
        forall|a: int, b: int|
            0 <= a < b < fanout_positions(e, clients).len() ==> fanout_positions(e, clients)[a]
                < fanout_positions(e, clients)[b],
        forall|i: int|
            0 <= i < clients.len() && receives(e, #[trigger] clients[i]) ==> fanout_positions(
                e,
                clients,
            ).contains(i as usize),
    decreases clients.len(),
{
    if clients.len() > 0 {
        let pre = clients.drop_last();
        lemma_fanout_positions(e, pre);
        let before = fanout_positions(e, pre);
        let now = fanout_positions(e, clients);
        assert(pre.len() == clients.len() - 1);
        assert forall|k: int| 0 <= k < before.len() implies now[k] == before[k] && (#[trigger] before[k])
            < pre.len() && clients[before[k] as int] == pre[before[k] as int] by {}
        assert forall|k: int| 0 <= k < now.len() implies (#[trigger] now[k]) < clients.len()
            && receives(e, clients[now[k] as int]) by {
            if k < before.len() {
                assert(now[k] == before[k]);
                assert(before[k] < pre.len());
            }
        }
        assert forall|a: int, b: int| 0 <= a < b < now.len() implies now[a] < now[b] by {
            if b < before.len() {
                assert(now[a] == before[a] && now[b] == before[b]);
            } else {
                assert(now[a] == before[a]);
                assert(before[a] < pre.len());
            }
        }
        assert forall|i: int| 0 <= i < clients.len() && receives(e, #[trigger] clients[i]) implies now.contains(
            i as usize,
        ) by {
            if i < pre.len() {
                assert(pre[i] == clients[i]);
                let k = choose|k: int| 0 <= k < before.len() && before[k] == i as usize;
                assert(now[k] == before[k]);
            } else {
                assert(now[now.len() - 1] == i as usize);
            }
        }
    }
}

/// Skip-self: the client an event comes from (the new speaker, the
/// publisher of a track or packet, the requester of a keyframe) never
/// receives it back.
pub proof fn lemma_origin_never_receives(e: FanoutEvent, clients: Seq<ClientId>, k: int)
    requires
        clients.len() <= usize::MAX,
        0 <= k < fanout_positions(e, clients).len(),
    ensures
        match e {
            FanoutEvent::ActiveSpeakerChanged { speaker } => clients[fanout_positions(e, clients)[k] as int]
                != speaker,
            FanoutEvent::TrackOpen { origin } => clients[fanout_positions(e, clients)[k] as int] != origin,
            FanoutEvent::MediaData { origin } => clients[fanout_positions(e, clients)[k] as int] != origin,
            FanoutEvent::KeyframeRequest { origin, source } => clients[fanout_positions(e, clients)[k] as int]
                != origin && clients[fanout_positions(e, clients)[k] as int] == source,
            FanoutEvent::Local => false,
        },
{
    lemma_fanout_positions(e, clients);
    assert(fanout_positions(e, clients)[k] < clients.len());
}

/// The level the dominant-speaker detector expects (0 = loud, 127 = silent)
/// for a raw RFC 6464 audio level as the WebRTC engine stores it (the
/// negated level, 0 = loudest, -127 = silent): negated and clamped to 0..=127.
pub open spec fn detector_level_of(raw: i8) -> int {
    let v = -(raw as int);
    if v < 0 {
        0
    } else if v > 127 {
        127
    } else {
        v
    }
}

/// See [`detector_level_of`].
pub fn detector_level(raw: i8) -> (l: u8)
    ensures
        l == detector_level_of(raw),
{
    let v: i16 = -(raw as i16);
    if v < 0 {
        0
    } else if v > 127 {
        127
    } else {
        v as u8
    }
}

/// Who gets an event, position by position: a client is listed exactly when
/// it is not the event's own source and the event is meant for it. A speaker
/// change, a new track and a media packet go to every client other than the
/// speaker or origin, whatever their ids or order; a keyframe request goes
/// to its source publisher only; a local event goes to no one.
pub proof fn lemma_fanout_recipients(e: FanoutEvent, clients: Seq<ClientId>, i: int)
    requires
        clients.len() <= usize::MAX,
        0 <= i < clients.len(),
    ensures
        fanout_positions(e, clients).contains(i as usize) <==> match e {
            FanoutEvent::ActiveSpeakerChanged { speaker } => clients[i] != speaker,
            FanoutEvent::TrackOpen { origin } => clients[i] != origin,
            FanoutEvent::MediaData { origin } => clients[i] != origin,
            FanoutEvent::KeyframeRequest { origin, source } => clients[i] != origin && clients[i]
                == source,
            FanoutEvent::Local => false,
        },
{
    lemma_fanout_positions(e, clients);
    if fanout_positions(e, clients).contains(i as usize) {
        let k = choose|k: int|
            0 <= k < fanout_positions(e, clients).len() && fanout_positions(e, clients)[k] == i as usize;
        assert(receives(e, clients[fanout_positions(e, clients)[k] as int]));
    }
}

} // verus!
