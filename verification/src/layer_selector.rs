//! Per-subscriber simulcast layer selection.
//!
//! The default implementation uses the subscriber's desired layer, clamped to
//! what the publisher actually sends.
use vstd::prelude::*;

use crate::ids::SfuRid;

verus! {

broadcast use crate::ids::lemma_rid_view;

/// Decides which simulcast RID to forward to a subscriber.
pub trait LayerSelector: Send + 'static {
    /// Choose the RID to forward given the subscriber's preference `desired`
    /// and the RIDs `active` the publisher is currently sending (empty =
    /// unknown). Returns one of the entries of `active`, or `desired` if
    /// `active` is empty.
    fn select(&self, desired: SfuRid, active: &[SfuRid]) -> (r: SfuRid)
        ensures
            active@.len() == 0 ==> r == desired,
            active@.len() > 0 ==> active@.contains(r),
    ;
}

/// Rank of a layer for selection: LOW 0, MEDIUM 1, anything else 2.
pub open spec fn select_rank(r: SfuRid) -> int {
    if r == SfuRid::spec_low() {
        0
    } else if r == SfuRid::spec_medium() {
        1
    } else {
        2
    }
}

/// Among the entries of `s` ranked at most `dr`, the highest-ranked one;
/// of equally ranked ones the last. `None` when no entry qualifies.
pub open spec fn best_at_most(s: Seq<SfuRid>, dr: int) -> Option<SfuRid>
    decreases s.len(),
{
    if s.len() == 0 {
        None
    } else {
        let b = best_at_most(s.drop_last(), dr);
        let x = s.last();
        if select_rank(x) <= dr {
            match b {
                None => Some(x),
                Some(y) => if select_rank(x) >= select_rank(y) {
                    Some(x)
                } else {
                    Some(y)
                },
            }
        } else {
            b
        }
    }
}

/// The lowest-ranked entry of a non-empty `s`; of equally ranked ones the first.
pub open spec fn lowest(s: Seq<SfuRid>) -> SfuRid
    decreases s.len(),
{
    if s.len() <= 1 {
        s[0]
    } else {
        let y = lowest(s.drop_last());
        if select_rank(s.last()) < select_rank(y) {
            s.last()
        } else {
            y
        }
    }
}

/// The layer the best-fit selector forwards.
pub open spec fn best_fit(desired: SfuRid, active: Seq<SfuRid>) -> SfuRid {
    if active.len() == 0 {
        desired
    } else {
        match best_at_most(active, select_rank(desired)) {
            Some(r) => r,
            None => lowest(active),
        }
    }
}

/// `best_at_most` picks an entry within the bound, of maximal rank among them.
proof fn lemma_best_at_most(s: Seq<SfuRid>, dr: int)
    ensures
        best_at_most(s, dr) is None <==> (forall|i: int|
            0 <= i < s.len() ==> select_rank(#[trigger] s[i]) > dr),
        best_at_most(s, dr) matches Some(r) ==> s.contains(r) && select_rank(r) <= dr && (forall|
            i: int,
        | 0 <= i < s.len() && select_rank(#[trigger] s[i]) <= dr ==> select_rank(s[i])
            <= select_rank(r)),
    decreases s.len(),
{
    if s.len() > 0 {
        lemma_best_at_most(s.drop_last(), dr);
        assert forall|i: int| 0 <= i < s.len() - 1 implies #[trigger] s[i] == s.drop_last()[i] by {}
        if let Some(r) = best_at_most(s, dr) {
            if r == s.last() {
                assert(s[s.len() - 1] == r);
            } else {
                let j = choose|j: int| 0 <= j < s.drop_last().len() && s.drop_last()[j] == r;
                assert(s[j] == r);
            }
        }
    }
}

/// `lowest` picks an entry of minimal rank.
proof fn lemma_lowest(s: Seq<SfuRid>)
    requires
        s.len() > 0,
    ensures
        s.contains(lowest(s)),
        forall|i: int| 0 <= i < s.len() ==> select_rank(lowest(s)) <= select_rank(#[trigger] s[i]),
    decreases s.len(),
{
    if s.len() > 1 {
        lemma_lowest(s.drop_last());
        assert forall|i: int| 0 <= i < s.len() - 1 implies #[trigger] s[i] == s.drop_last()[i] by {}
        if lowest(s) == s.last() {
            assert(s[s.len() - 1] == lowest(s));
        } else {
            let j = choose|j: int|
                0 <= j < s.drop_last().len() && s.drop_last()[j] == lowest(s.drop_last());
            assert(s[j] == lowest(s));
        }
    } else {
        assert(s[0] == lowest(s));
    }
}

/// Default selector: use `desired`, clamped to the best available RID at or
/// below it.
///
/// If `active` is empty (publisher not yet sending simulcast), returns
/// `desired`. If no active RID ranks at or below `desired`, returns the
/// lowest available RID.
#[derive(Debug, Default, Clone, Copy)]
pub struct BestFitSelector;

/// Selection rank computed at run time.
fn rank_of(r: SfuRid) -> (k: u8)
    ensures
        k == select_rank(r),
{
    if r == SfuRid::low() {
        0
    } else if r == SfuRid::medium() {
        1
    } else {
        2
    }
}

impl BestFitSelector {
    /// The best-fit choice, with its characterisation: the forwarded layer is
    /// active; it ranks at or below `desired` whenever some active layer
    /// does, and is then the highest-ranked such layer; otherwise it is the
    /// lowest-ranked active layer.
    pub fn best_fit(&self, desired: SfuRid, active: &[SfuRid]) -> (r: SfuRid)
        ensures
            r == best_fit(desired, active@),
            active@.len() == 0 ==> r == desired,
            active@.len() > 0 ==> active@.contains(r),
            (exists|i: int| 0 <= i < active@.len() && select_rank(#[trigger] active@[i]) <= select_rank(desired)) ==> (
            select_rank(r) <= select_rank(desired) && forall|i: int|
                0 <= i < active@.len() && select_rank(#[trigger] active@[i]) <= select_rank(desired)
                    ==> select_rank(active@[i]) <= select_rank(r)),
            (active@.len() > 0 && forall|i: int|
                0 <= i < active@.len() ==> select_rank(#[trigger] active@[i]) > select_rank(
                    desired,
                )) ==> (forall|i: int|
                0 <= i < active@.len() ==> select_rank(r) <= select_rank(#[trigger] active@[i])),
    {
        proof {
            lemma_best_at_most(active@, select_rank(desired));
            if active@.len() > 0 {
                lemma_lowest(active@);
            }
        }
        if active.len() == 0 {
            return desired;
        }
        let dr = rank_of(desired);
        // Best active RID ranked at or below `desired` (last of the highest).
        let mut best: Option<SfuRid> = None;
        let mut i: usize = 0;
        while i < active.len()
            invariant
                i <= active@.len(),
                dr == select_rank(desired),
                best == best_at_most(active@.subrange(0, i as int), dr as int),
            decreases active@.len() - i,
        {
            let x = active[i];
            let xr = rank_of(x);
            assert(active@.subrange(0, i + 1).drop_last() =~= active@.subrange(0, i as int));
            if xr <= dr {
                match best {
                    None => {
                        best = Some(x);
                    },
                    Some(y) => {
                        if xr >= rank_of(y) {
                            best = Some(x);
                        }
                    },
                }
            }
            i = i + 1;
        }
        assert(active@.subrange(0, active@.len() as int) =~= active@);
        match best {
            Some(r) => r,
            None => {
                // All active RIDs rank above `desired`: pick the lowest (first of equals).
                let mut low = active[0];
                let mut j: usize = 1;
                assert(active@.subrange(0, 1) =~= seq![active@[0]]);
                while j < active.len()
                    invariant
                        1 <= j <= active@.len(),
                        low == lowest(active@.subrange(0, j as int)),
                    decreases active@.len() - j,
                {
                    let x = active[j];
                    assert(active@.subrange(0, j + 1).drop_last() =~= active@.subrange(
                        0,
                        j as int,
                    ));
                    if rank_of(x) < rank_of(low) {
                        low = x;
                    }
                    j = j + 1;
                }
                low
            },
        }
    }
}

impl LayerSelector for BestFitSelector {
    /// The best-fit choice: the highest-ranked active layer at or below
    /// `desired`, or, when every active layer ranks above it, the
    /// lowest-ranked active layer (`desired` when nothing is active).
    fn select(&self, desired: SfuRid, active: &[SfuRid]) -> (r: SfuRid)
        ensures
            r == best_fit(desired, active@),
            (exists|i: int| 0 <= i < active@.len() && select_rank(#[trigger] active@[i]) <= select_rank(desired)) ==> (
            select_rank(r) <= select_rank(desired) && forall|i: int|
                0 <= i < active@.len() && select_rank(#[trigger] active@[i]) <= select_rank(desired)
                    ==> select_rank(active@[i]) <= select_rank(r)),
            (active@.len() > 0 && forall|i: int|
                0 <= i < active@.len() ==> select_rank(#[trigger] active@[i]) > select_rank(
                    desired,
                )) ==> (forall|i: int|
                0 <= i < active@.len() ==> select_rank(r) <= select_rank(#[trigger] active@[i])),
    {
        self.best_fit(desired, active)
    }
}

} // verus!
