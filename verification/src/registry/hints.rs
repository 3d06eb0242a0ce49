//! Publisher layer hints: the highest layer any subscriber wants.
use vstd::prelude::*;

use crate::ids::SfuRid;
use crate::layer_selector::select_rank;
use crate::propagate::ClientId;

verus! {

broadcast use crate::ids::lemma_rid_view;

/// The running maximum of `m` and the wants of `s` for publisher `p`,
/// starting from `m`: a want replaces the maximum only when it ranks
/// strictly higher (so the first of equally ranked wants is kept).
pub open spec fn fold_max(s: Seq<(ClientId, SfuRid)>, p: ClientId, m: SfuRid) -> SfuRid
    decreases s.len(),
{
    if s.len() == 0 {
        m
    } else {
        let m1 = fold_max(s.drop_last(), p, m);
        if s.last().0 == p && select_rank(s.last().1) > select_rank(m1) {
            s.last().1
        } else {
            m1
        }
    }
}

/// Publishers of `s` in first-appearance order, without repeats.
pub open spec fn publishers_in_order(s: Seq<(ClientId, SfuRid)>) -> Seq<ClientId>
    decreases s.len(),
{
    if s.len() == 0 {
        seq![]
    } else {
        let ps = publishers_in_order(s.drop_last());
        if ps.contains(s.last().0) {
            ps
        } else {
            ps.push(s.last().0)
        }
    }
}

/// For every publisher appearing in `wants` (pairs of a publisher and the
/// desired layer of one subscriber of it), the highest desired layer,
/// starting from LOW. Publishers come in first-appearance order.
pub fn max_layer_per_publisher(wants: &[(ClientId, SfuRid)]) -> (r: Vec<(ClientId, SfuRid)>)
    ensures
        r@.len() == publishers_in_order(wants@).len(),
        forall|k: int|
            0 <= k < r@.len() ==> (#[trigger] r@[k]).0 == publishers_in_order(wants@)[k] && r@[k].1
                == fold_max(wants@, r@[k].0, SfuRid::spec_low()),
{
    let mut r: Vec<(ClientId, SfuRid)> = Vec::new();
    let mut i: usize = 0;
    while i < wants.len()
        invariant
            i <= wants@.len(),
            r@.len() == publishers_in_order(wants@.subrange(0, i as int)).len(),
            forall|k: int|
                0 <= k < r@.len() ==> (#[trigger] r@[k]).0 == publishers_in_order(
                    wants@.subrange(0, i as int),
                )[k] && r@[k].1 == fold_max(wants@.subrange(0, i as int), r@[k].0, SfuRid::spec_low()),
        decreases wants@.len() - i,
    {
        let (p, d) = wants[i];
        let ghost prev = wants@.subrange(0, i as int);
        let ghost next = wants@.subrange(0, i + 1);
        assert(next.drop_last() =~= prev);
        assert(next.last() == (p, d));
        let ghost old_r = r@;
        let pos = find_publisher(&r, p);
        let found = pos.is_some();
        if let Some(j) = pos {
            let (_, cur) = r[j];
            if rank_u8(d) > rank_u8(cur) {
                r.set(j, (p, d));
            }
        }
        proof {
            let ps = publishers_in_order(prev);
            assert(ps.len() == old_r.len());
            if found {
                let j = pos.unwrap();
                assert(ps.contains(p)) by {
                    assert(ps[j as int] == old_r[j as int].0);
                }
                lemma_publishers_unique(prev);
                assert(publishers_in_order(next) == ps);
                assert forall|k: int| 0 <= k < r@.len() implies (#[trigger] r@[k]).0
                    == publishers_in_order(next)[k] && r@[k].1 == fold_max(next, r@[k].0, SfuRid::spec_low()) by {
                    assert(old_r[k].0 == ps[k]);
                    if k != j as int {
                        assert(ps[k] != ps[j as int]);
                        assert(r@[k] == old_r[k]);
                    }
                }
            } else {
                assert(!ps.contains(p)) by {
                    if ps.contains(p) {
                        let k = choose|k: int| 0 <= k < ps.len() && ps[k] == p;
                        assert(old_r[k].0 == p);
                    }
                }
            }
        }
        if !found {
            let init = SfuRid::low();
            let m = if rank_u8(d) > rank_u8(init) {
                d
            } else {
                init
            };
            r.push((p, m));
            proof {
                let ps = publishers_in_order(prev);
                assert(fold_max(prev, p, SfuRid::spec_low()) == SfuRid::spec_low()) by {
                    lemma_fold_absent(prev, p, SfuRid::spec_low());
                }
                assert forall|k: int| 0 <= k < r@.len() implies (#[trigger] r@[k]).0
                    == publishers_in_order(next)[k] && r@[k].1 == fold_max(next, r@[k].0, SfuRid::spec_low()) by {
                    if k < old_r.len() {
                        assert(r@[k] == old_r[k]);
                        assert(old_r[k].0 == ps[k]);
                    }
                }
            }
        }
        i = i + 1;
    }
    assert(wants@.subrange(0, wants@.len() as int) =~= wants@);
    r
}

/// The hint for a publisher covers every subscriber of it: it ranks at
/// least as high as each want for that publisher (and at least LOW), and it
/// is LOW or one of those wants.
pub proof fn lemma_hint_covers_every_want(s: Seq<(ClientId, SfuRid)>, p: ClientId, m: SfuRid)
    ensures
        select_rank(fold_max(s, p, m)) >= select_rank(m),
        forall|k: int|
            0 <= k < s.len() && (#[trigger] s[k]).0 == p ==> select_rank(fold_max(s, p, m))
                >= select_rank(s[k].1),
        fold_max(s, p, m) == m || exists|k: int|
            0 <= k < s.len() && (#[trigger] s[k]).0 == p && fold_max(s, p, m) == s[k].1,
    decreases s.len(),
{
    if s.len() > 0 {
        let pre = s.drop_last();
        lemma_hint_covers_every_want(pre, p, m);
        let m1 = fold_max(pre, p, m);
        assert forall|k: int| 0 <= k < s.len() && (#[trigger] s[k]).0 == p implies select_rank(
            fold_max(s, p, m),
        ) >= select_rank(s[k].1) by {
            if k < pre.len() {
                assert(pre[k] == s[k]);
            }
        }
        if fold_max(s, p, m) != m {
            if fold_max(s, p, m) == s.last().1 && s.last().0 == p {
                assert(s[s.len() - 1] == s.last());
            } else {
                assert(fold_max(s, p, m) == m1);
                let k = choose|k: int| 0 <= k < pre.len() && (#[trigger] pre[k]).0 == p && m1 == pre[k].1;
                assert(s[k] == pre[k]);
            }
        }
    }
}

/// The hint last sent for publisher `p` in `hints` (its first entry), if any.
pub open spec fn hint_for(hints: Seq<(ClientId, SfuRid)>, p: ClientId) -> Option<SfuRid>
    decreases hints.len(),
{
    if hints.len() == 0 {
        None
    } else if hints[0].0 == p {
        Some(hints[0].1)
    } else {
        hint_for(hints.drop_first(), p)
    }
}

/// The entries of `next` whose layer differs from the hint in `prev` for the
/// same publisher (or whose publisher has no hint in `prev`), in order.
pub open spec fn changed_hints(prev: Seq<(ClientId, SfuRid)>, next: Seq<(ClientId, SfuRid)>) -> Seq<
    (ClientId, SfuRid),
>
    decreases next.len(),
{
    if next.len() == 0 {
        seq![]
    } else {
        let before = changed_hints(prev, next.drop_last());
        if hint_for(prev, next.last().0) == Some(next.last().1) {
            before
        } else {
            before.push(next.last())
        }
    }
}

/// The hints to send now, given the hints sent before (`prev`) and the
/// current per-publisher maxima (`next`): only the maxima that changed.
pub fn hints_to_send(prev: &[(ClientId, SfuRid)], next: &[(ClientId, SfuRid)]) -> (r: Vec<(ClientId, SfuRid)>)
    ensures
        r@ == changed_hints(prev@, next@),
{
    let mut r: Vec<(ClientId, SfuRid)> = Vec::new();
    let mut i: usize = 0;
    while i < next.len()
        invariant
            i <= next@.len(),
            r@ == changed_hints(prev@, next@.subrange(0, i as int)),
        decreases next@.len() - i,
    {
        let (p, d) = next[i];
        let ghost nxt = next@.subrange(0, i + 1);
        assert(nxt.drop_last() =~= next@.subrange(0, i as int));
        assert(nxt.last() == (p, d));
        let same = match hint_lookup(prev, p) {
            Some(old) => old == d,
            None => false,
        };
        if !same {
            r.push((p, d));
        }
        i = i + 1;
    }
    assert(next@.subrange(0, next@.len() as int) =~= next@);
    r
}

/// The hint for `p` in `hints`, computed.
fn hint_lookup(hints: &[(ClientId, SfuRid)], p: ClientId) -> (o: Option<SfuRid>)
    ensures
        o == hint_for(hints@, p),
{
    let mut i: usize = 0;
    assert(hints@.subrange(0, hints@.len() as int) =~= hints@);
    while i < hints.len()
        invariant
            i <= hints@.len(),
            hint_for(hints@, p) == hint_for(hints@.subrange(i as int, hints@.len() as int), p),
        decreases hints@.len() - i,
    {
        let ghost sub = hints@.subrange(i as int, hints@.len() as int);
        assert(sub.drop_first() =~= hints@.subrange(i + 1, hints@.len() as int));
        if hints[i].0 == p {
            return Some(hints[i].1);
        }
        i = i + 1;
    }
    None
}

/// A layer hint to send for one publisher: the highest layer its
/// subscribers want, and whether it goes upstream (the publisher is a relay
/// from another SFU) or to the publisher itself.
#[derive(Debug, Clone, Copy, PartialEq, Eq, Structural)]
pub struct PublisherHint {
    /// The publisher.
    pub publisher: ClientId,
    /// Highest layer any of its subscribers wants.
    pub max_rid: SfuRid,
    /// Whether the publisher is a relay, so the hint goes upstream.
    pub relay: bool,
}

/// The hint for entry `e` of the changed maxima, with its relay flag.
pub open spec fn hint_of(e: (ClientId, SfuRid), relays: Seq<ClientId>) -> PublisherHint {
    PublisherHint { publisher: e.0, max_rid: e.1, relay: relays.contains(e.0) }
}

/// One round of publisher layer hints. From the maxima sent last round
/// (`prev`), the current wants (pairs of a publisher and one subscriber's
/// desired layer) and the ids of the relay publishers, compute the new
/// per-publisher maxima (the highest want of each publisher, starting from
/// LOW, in first-appearance order) and the hints to send: one for each
/// publisher whose maximum differs from the one sent last round (or that had
/// none), flagged for upstream when the publisher is a relay.
pub fn publisher_hint_round(
    prev: &[(ClientId, SfuRid)],
    wants: &[(ClientId, SfuRid)],
    relays: &[ClientId],
) -> (r: (Vec<PublisherHint>, Vec<(ClientId, SfuRid)>))
    ensures
        r.1@.len() == publishers_in_order(wants@).len(),
        forall|k: int|
            0 <= k < r.1@.len() ==> (#[trigger] r.1@[k]).0 == publishers_in_order(wants@)[k] && r.1@[k].1
                == fold_max(wants@, r.1@[k].0, SfuRid::spec_low()),
        r.0@.len() == changed_hints(prev@, r.1@).len(),
        forall|k: int|
            0 <= k < r.0@.len() ==> #[trigger] r.0@[k] == hint_of(changed_hints(prev@, r.1@)[k], relays@),
        forall|x: (ClientId, SfuRid)|
            #![trigger changed_hints(prev@, r.1@).contains(x)]
            changed_hints(prev@, r.1@).contains(x) <==> (r.1@.contains(x) && hint_for(prev@, x.0)
                != Some(x.1)),
        forall|i: int, j: int|
            0 <= i < j < r.0@.len() ==> (#[trigger] r.0@[i]).publisher != (#[trigger] r.0@[j]).publisher,
        forall|k: int|
            0 <= k < r.0@.len() ==> ((#[trigger] r.0@[k]).relay <==> exists|j: int|
                0 <= j < relays@.len() && relays@[j] == r.0@[k].publisher),
{
    let maxima = max_layer_per_publisher(wants);
    let changed = hints_to_send(prev, &maxima);
    let mut hints: Vec<PublisherHint> = Vec::new();
    let mut i: usize = 0;
    while i < changed.len()
        invariant
            i <= changed@.len(),
            hints@.len() == i,
            forall|k: int| 0 <= k < i ==> #[trigger] hints@[k] == hint_of(changed@[k], relays@),
        decreases changed@.len() - i,
    {
        let (p, m) = changed[i];
        let relay = contains_id(relays, p);
        hints.push(PublisherHint { publisher: p, max_rid: m, relay });
        i = i + 1;
    }
    proof {
        assert forall|k: int| 0 <= k < hints@.len() implies ((#[trigger] hints@[k]).relay <==> exists|j: int|
            0 <= j < relays@.len() && relays@[j] == hints@[k].publisher) by {
            lemma_hint_flags_relay(changed@[k], relays@);
        }
        lemma_changed_hints_members(prev@, maxima@);
        lemma_publishers_unique(wants@);
        let ps = publishers_in_order(wants@);
        assert forall|i: int, j: int| 0 <= i < j < maxima@.len() implies (#[trigger] maxima@[i]).0
            != (#[trigger] maxima@[j]).0 by {
            assert(maxima@[i].0 == ps[i] && maxima@[j].0 == ps[j]);
        }
        lemma_changed_hints_unique(prev@, maxima@);
        assert forall|i: int, j: int| 0 <= i < j < hints@.len() implies (#[trigger] hints@[i]).publisher
            != (#[trigger] hints@[j]).publisher by {
            assert(hints@[i].publisher == changed@[i].0);
            assert(hints@[j].publisher == changed@[j].0);
        }
    }
    (hints, maxima)
}

/// A round sends at most one hint per publisher: when the maxima list each
/// publisher once, so do the changed ones.
pub proof fn lemma_changed_hints_unique(prev: Seq<(ClientId, SfuRid)>, next: Seq<(ClientId, SfuRid)>)
    requires
        forall|i: int, j: int| 0 <= i < j < next.len() ==> (#[trigger] next[i]).0 != (#[trigger] next[j]).0,
    ensures
        forall|i: int, j: int|
            0 <= i < j < changed_hints(prev, next).len() ==> (#[trigger] changed_hints(prev, next)[i]).0
                != (#[trigger] changed_hints(prev, next)[j]).0,
    decreases next.len(),
{
    if next.len() > 0 {
        let pre = next.drop_last();
        assert forall|i: int, j: int| 0 <= i < j < pre.len() implies (#[trigger] pre[i]).0 != (
        #[trigger] pre[j]).0 by {
            assert(pre[i] == next[i] && pre[j] == next[j]);
        }
        lemma_changed_hints_unique(prev, pre);
        lemma_changed_hints_members(prev, pre);
        let before = changed_hints(prev, pre);
        let now = changed_hints(prev, next);
        if hint_for(prev, next.last().0) != Some(next.last().1) {
            assert forall|i: int, j: int| 0 <= i < j < now.len() implies (#[trigger] now[i]).0 != (
            #[trigger] now[j]).0 by {
                if j == before.len() {
                    assert(now[i] == before[i]);
                    assert(before.contains(before[i]));
                    let b = choose|b: int| 0 <= b < pre.len() && pre[b] == before[i];
                    assert(next[b] == pre[b]);
                    assert(next[next.len() - 1] == next.last());
                } else {
                    assert(now[i] == before[i] && now[j] == before[j]);
                }
            }
        }
    }
}

/// Whether `p` is among `ids`.
fn contains_id(ids: &[ClientId], p: ClientId) -> (r: bool)
    ensures
        r == ids@.contains(p),
{
    let mut i: usize = 0;
    while i < ids.len()
        invariant
            i <= ids@.len(),
            forall|k: int| 0 <= k < i ==> ids@[k] != p,
        decreases ids@.len() - i,
    {
        if ids[i] == p {
            assert(ids@[i as int] == p);
            return true;
        }
        i = i + 1;
    }
    false
}

/// An entry is among the hints to send exactly when it is a current maximum
/// that differs from what was sent for its publisher last time.
pub proof fn lemma_changed_hints_members(prev: Seq<(ClientId, SfuRid)>, next: Seq<(ClientId, SfuRid)>)
    ensures
        forall|x: (ClientId, SfuRid)|
            #![trigger changed_hints(prev, next).contains(x)]
            changed_hints(prev, next).contains(x) <==> (next.contains(x) && hint_for(prev, x.0)
                != Some(x.1)),
    decreases next.len(),
{
    if next.len() > 0 {
        let pre = next.drop_last();
        lemma_changed_hints_members(prev, pre);
        let before = changed_hints(prev, pre);
        let now = changed_hints(prev, next);
        assert forall|x: (ClientId, SfuRid)| now.contains(x) <==> (next.contains(x) && hint_for(
            prev,
            x.0,
        ) != Some(x.1)) by {
            assert(before.contains(x) <==> (pre.contains(x) && hint_for(prev, x.0) != Some(x.1)));
            if now.contains(x) {
                let a = choose|a: int| 0 <= a < now.len() && now[a] == x;
                if a < before.len() {
                    assert(before[a] == x);
                    let b = choose|b: int| 0 <= b < pre.len() && pre[b] == x;
                    assert(next[b] == x);
                } else {
                    assert(x == next.last());
                    assert(next[next.len() - 1] == x);
                }
            }
            if next.contains(x) && hint_for(prev, x.0) != Some(x.1) {
                let a = choose|a: int| 0 <= a < next.len() && next[a] == x;
                if a < pre.len() {
                    assert(pre[a] == x);
                    let b = choose|b: int| 0 <= b < before.len() && before[b] == x;
                    assert(now[b] == x);
                } else {
                    assert(now[now.len() - 1] == x);
                }
            }
        }
    }
}

/// Hints are sent only on change: with the same per-publisher maxima as
/// last time (each publisher listed once, as `max_layer_per_publisher`
/// lists them), nothing is sent again.
pub proof fn lemma_unchanged_hints_not_resent(s: Seq<(ClientId, SfuRid)>)
    requires
        forall|i: int, j: int| 0 <= i < j < s.len() ==> (#[trigger] s[i]).0 != (#[trigger] s[j]).0,
    ensures
        changed_hints(s, s).len() == 0,
{
    lemma_changed_prefix_empty(s, s.len() as int);
    assert(s.subrange(0, s.len() as int) =~= s);
}

proof fn lemma_changed_prefix_empty(s: Seq<(ClientId, SfuRid)>, n: int)
    requires
        0 <= n <= s.len(),
        forall|i: int, j: int| 0 <= i < j < s.len() ==> (#[trigger] s[i]).0 != (#[trigger] s[j]).0,
    ensures
        changed_hints(s, s.subrange(0, n)).len() == 0,
    decreases n,
{
    if n > 0 {
        let pre = s.subrange(0, n);
        assert(pre.drop_last() =~= s.subrange(0, n - 1));
        lemma_changed_prefix_empty(s, n - 1);
        lemma_hint_for_own(s, n - 1);
    }
}

/// In a list with each publisher once, the hint for an entry's publisher is
/// that entry's layer.
proof fn lemma_hint_for_own(s: Seq<(ClientId, SfuRid)>, k: int)
    requires
        0 <= k < s.len(),
        forall|i: int, j: int| 0 <= i < j < s.len() ==> (#[trigger] s[i]).0 != (#[trigger] s[j]).0,
    ensures
        hint_for(s, s[k].0) == Some(s[k].1),
    decreases k,
{
    if k > 0 {
        let t = s.drop_first();
        assert(s[0].0 != s[k].0);
        assert forall|i: int, j: int| 0 <= i < j < t.len() implies (#[trigger] t[i]).0 != (
        #[trigger] t[j]).0 by {
            assert(t[i] == s[i + 1] && t[j] == s[j + 1]);
        }
        assert(t[k - 1] == s[k]);
        lemma_hint_for_own(t, k - 1);
    }
}

/// Each publisher is listed once in the per-publisher maxima.
pub proof fn lemma_publishers_unique(s: Seq<(ClientId, SfuRid)>)
    ensures
        forall|i: int, j: int|
            0 <= i < j < publishers_in_order(s).len() ==> publishers_in_order(s)[i]
                != publishers_in_order(s)[j],
    decreases s.len(),
{
    if s.len() > 0 {
        lemma_publishers_unique(s.drop_last());
        let ps = publishers_in_order(s.drop_last());
        let qs = publishers_in_order(s);
        if !ps.contains(s.last().0) {
            assert forall|i: int, j: int| 0 <= i < j < qs.len() implies qs[i] != qs[j] by {
                if j == ps.len() {
                    assert(qs[i] == ps[i]);
                    assert(qs[j] == s.last().0);
                } else {
                    assert(qs[i] == ps[i] && qs[j] == ps[j]);
                }
            }
        }
    }
}

/// A publisher that does not appear keeps the starting maximum.
proof fn lemma_fold_absent(s: Seq<(ClientId, SfuRid)>, p: ClientId, m: SfuRid)
    requires
        !publishers_in_order(s).contains(p),
    ensures
        fold_max(s, p, m) == m,
    decreases s.len(),
{
    if s.len() > 0 {
        let ps = publishers_in_order(s.drop_last());
        if !ps.contains(s.last().0) {
            assert(publishers_in_order(s)[ps.len() as int] == s.last().0);
        }
        assert(!ps.contains(p)) by {
            if ps.contains(p) {
                let k = choose|k: int| 0 <= k < ps.len() && ps[k] == p;
                if ps.contains(s.last().0) {
                    assert(publishers_in_order(s)[k] == p);
                } else {
                    assert(publishers_in_order(s)[k] == p);
                }
            }
        }
        lemma_fold_absent(s.drop_last(), p, m);
    }
}

/// Index of the entry for publisher `p`, if any.
fn find_publisher(r: &Vec<(ClientId, SfuRid)>, p: ClientId) -> (o: Option<usize>)
    ensures
        match o {
            Some(j) => j < r@.len() && r@[j as int].0 == p,
            None => forall|k: int| 0 <= k < r@.len() ==> (#[trigger] r@[k]).0 != p,
        },
{
    let mut j: usize = 0;
    while j < r.len()
        invariant
            j <= r@.len(),
            forall|k: int| 0 <= k < j ==> (#[trigger] r@[k]).0 != p,
        decreases r@.len() - j,
    {
        if r[j].0 == p {
            return Some(j);
        }
        j = j + 1;
    }
    None
}

/// Selection rank computed at run time.
fn rank_u8(r: SfuRid) -> (k: u8)
    ensures
        k == select_rank(r),
{
    if r == SfuRid::low() {
        0
    } else if r == SfuRid::medium() {
        1
    } else {
        2
    }
}

/// A hint keeps its entry's publisher and layer, and goes upstream exactly
/// when its publisher is one of the relay ids, wherever it stands among them.
pub proof fn lemma_hint_flags_relay(e: (ClientId, SfuRid), relays: Seq<ClientId>)
    ensures
        hint_of(e, relays).publisher == e.0,
        hint_of(e, relays).max_rid == e.1,
        hint_of(e, relays).relay <==> exists|j: int| 0 <= j < relays.len() && relays[j] == e.0,
{
}

} // verus!
