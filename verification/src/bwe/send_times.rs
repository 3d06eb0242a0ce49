//! Send instants of the RTP packets sent to one subscriber, keyed by
//! extended sequence number, kept to a bounded number of entries.
use vstd::prelude::*;

use std::collections::HashMap;
use std::time::Instant;

verus! {

broadcast use vstd::std_specs::hash::group_hash_axioms;

/// Most send instants remembered per subscriber.
pub const MAX_SEND_TIMES: usize = 512;

/// Whether `k` is the smallest key of `m`.
pub open spec fn is_min_key(m: Map<u64, Instant>, k: u64) -> bool {
    m.dom().contains(k) && forall|j: u64| #[trigger] m.dom().contains(j) ==> k <= j
}

/// The map and the list of its keys (each once), from which the smallest
/// key is found when room must be made.
#[derive(Debug)]
struct Entries {
    map: HashMap<u64, Instant>,
    keys: Vec<u64>,
}

spec fn entries_wf(e: Entries) -> bool {
    &&& e.keys@.no_duplicates()
    &&& e.keys@.to_set() == e.map@.dom()
}

/// Bounded map from sequence number to send instant.
#[derive(Debug)]
pub struct SendTimes {
    e: Entries,
}

impl View for SendTimes {
    type V = Map<u64, Instant>;

    closed spec fn view(&self) -> Map<u64, Instant> {
        self.e.map@
    }
}

impl SendTimes {
    #[verifier::type_invariant]
    spec fn inv(self) -> bool {
        &&& entries_wf(self.e)
        &&& self.e.map@.dom().len() <= MAX_SEND_TIMES
    }

    /// No entries.
    pub fn new() -> (s: Self)
        ensures
            s@ == Map::<u64, Instant>::empty(),
    {
        let e = Entries { map: HashMap::new(), keys: Vec::new() };
        assert(e.keys@.to_set() =~= e.map@.dom());
        assert(e.map@.dom() =~= Set::<u64>::empty());
        SendTimes { e }
    }

    /// The send instant of `seq`, if remembered.
    pub fn get(&self, seq: u64) -> (r: Option<Instant>)
        ensures
            r == (if self@.dom().contains(seq) {
                Some(self@[seq])
            } else {
                None
            }),
    {
        match self.e.map.get(&seq) {
            Some(t) => Some(*t),
            None => None,
        }
    }

    /// Number of remembered entries.
    pub fn len(&self) -> (n: usize)
        ensures
            n == self@.dom().len(),
    {
        proof {
            use_type_invariant(self);
            self.e.keys@.unique_seq_to_set();
        }
        self.e.keys.len()
    }

    /// Remember that `seq` was sent at `sent_at`; when the map is full, the
    /// entry with the smallest sequence number is forgotten first.
    pub fn record(&mut self, seq: u64, sent_at: Instant)
        ensures
            old(self)@.dom().len() < MAX_SEND_TIMES ==> final(self)@ == old(self)@.insert(seq, sent_at),
            old(self)@.dom().len() >= MAX_SEND_TIMES ==> exists|k: u64|
                is_min_key(old(self)@, k) && final(self)@ == old(self)@.remove(k).insert(seq, sent_at),
            final(self)@.dom().len() <= MAX_SEND_TIMES,
            final(self)@.dom().contains(seq) && final(self)@[seq] == sent_at,
    {
        proof {
            use_type_invariant(&*self);
        }
        let mut e = Entries { map: HashMap::new(), keys: Vec::new() };
        assert(e.keys@.to_set() =~= e.map@.dom());
        std::mem::swap(&mut e, &mut self.e);
        let ghost m0 = e.map@;
        proof {
            e.keys@.unique_seq_to_set();
        }
        if e.keys.len() >= MAX_SEND_TIMES {
            let i = min_index(&e.keys);
            let k = e.keys[i];
            proof {
                lemma_swap_remove(e.keys@, i as int);
                assert forall|j: u64| #[trigger] m0.dom().contains(j) implies k <= j by {
                    assert(e.keys@.to_set().contains(j));
                    let t = choose|t: int| 0 <= t < e.keys@.len() && e.keys@[t] == j;
                }
                assert(e.keys@.to_set().contains(k));
            }
            let _ = e.keys.swap_remove(i);
            let _ = e.map.remove(&k);
            assert(e.keys@.to_set() =~= e.map@.dom());
            assert(is_min_key(m0, k));
        }
        let ghost m1 = e.map@;
        let ghost k1 = e.keys@;
        if !e.map.contains_key(&seq) {
            proof {
                assert(!e.keys@.contains(seq)) by {
                    if e.keys@.contains(seq) {
                        assert(e.keys@.to_set().contains(seq));
                    }
                }
            }
            e.keys.push(seq);
        }
        let _ = e.map.insert(seq, sent_at);
        proof {
            assert(e.map@ == m1.insert(seq, sent_at));
            assert forall|x: u64| e.keys@.to_set().contains(x) <==> e.map@.dom().contains(x) by {
                if e.keys@.to_set().contains(x) {
                    let a = choose|a: int| 0 <= a < e.keys@.len() && e.keys@[a] == x;
                    if a < k1.len() {
                        assert(k1[a] == x);
                        assert(k1.to_set().contains(x));
                    }
                }
                if e.map@.dom().contains(x) && x != seq {
                    assert(k1.to_set().contains(x));
                    let a = choose|a: int| 0 <= a < k1.len() && k1[a] == x;
                    assert(e.keys@[a] == x);
                }
                if x == seq && e.keys@ == k1 {
                    assert(k1.to_set().contains(x));
                }
                if x == seq && e.keys@ != k1 {
                    assert(e.keys@[e.keys@.len() - 1] == x);
                }
            }
            assert(e.keys@.to_set() =~= e.map@.dom());
            if m0.dom().len() >= MAX_SEND_TIMES {
                let k = choose|k: u64| is_min_key(m0, k) && m1 == m0.remove(k);
                lemma_send_times_bounded(m0, k, seq, sent_at);
            } else {
                lemma_send_times_bounded(m0, seq, seq, sent_at);
            }
        }
        self.e = e;
    }
}

/// Swapping the last element into position `i` and dropping the last removes
/// exactly `s[i]` from a duplicate-free sequence.
proof fn lemma_swap_remove(s: Seq<u64>, i: int)
    requires
        s.no_duplicates(),
        0 <= i < s.len(),
    ensures
        s.update(i, s.last()).drop_last().no_duplicates(),
        s.update(i, s.last()).drop_last().to_set() == s.to_set().remove(s[i]),
{
    let t = s.update(i, s.last()).drop_last();
    assert forall|a: int, b: int| 0 <= a < t.len() && 0 <= b < t.len() && a != b implies t[a] != t[b] by {
        let a2 = if a == i { s.len() - 1 } else { a };
        let b2 = if b == i { s.len() - 1 } else { b };
        assert(t[a] == s[a2] && t[b] == s[b2]);
    }
    assert forall|x: u64| t.to_set().contains(x) <==> s.to_set().remove(s[i]).contains(x) by {
        if t.to_set().contains(x) {
            let a = choose|a: int| 0 <= a < t.len() && t[a] == x;
            let a2 = if a == i { s.len() - 1 } else { a };
            assert(s[a2] == x);
            assert(a2 != i);
        }
        if s.to_set().remove(s[i]).contains(x) {
            let a = choose|a: int| 0 <= a < s.len() && s[a] == x;
            assert(a != i);
            if a == s.len() - 1 {
                if i < s.len() - 1 {
                    assert(t[i] == x);
                }
            } else {
                assert(t[a] == x);
            }
        }
    }
    assert(t.to_set() =~= s.to_set().remove(s[i]));
}

/// Index of the smallest element of a non-empty vector.
fn min_index(v: &Vec<u64>) -> (i: usize)
    requires
        v@.len() > 0,
    ensures
        i < v@.len(),
        forall|j: int| 0 <= j < v@.len() ==> v@[i as int] <= #[trigger] v@[j],
{
    let mut best: usize = 0;
    let mut j: usize = 1;
    while j < v.len()
        invariant
            1 <= j <= v@.len(),
            best < j,
            forall|t: int| 0 <= t < j ==> v@[best as int] <= #[trigger] v@[t],
        decreases v@.len() - j,
    {
        if v[j] < v[best] {
            best = j;
        }
        j = j + 1;
    }
    best
}

/// The map stays bounded: from at most `MAX_SEND_TIMES` entries, recording
/// one more send leaves at most `MAX_SEND_TIMES` entries.
pub proof fn lemma_send_times_bounded(m: Map<u64, Instant>, k: u64, seq: u64, t: Instant)
    requires
        m.dom().finite(),
        m.dom().len() <= MAX_SEND_TIMES,
        m.dom().len() >= MAX_SEND_TIMES ==> is_min_key(m, k),
    ensures
        (if m.dom().len() >= MAX_SEND_TIMES {
            m.remove(k).insert(seq, t)
        } else {
            m.insert(seq, t)
        }).dom().len() <= MAX_SEND_TIMES,
{
    if m.dom().len() >= MAX_SEND_TIMES {
        assert(m.remove(k).dom().len() == m.dom().len() - 1);
        assert(m.remove(k).insert(seq, t).dom() =~= m.remove(k).dom().insert(seq));
    } else {
        assert(m.insert(seq, t).dom() =~= m.dom().insert(seq));
    }
}

} // verus!
