//! The sliding window of received/lost packets behind the loss-based rate
//! controller.
use vstd::prelude::*;

use std::collections::VecDeque;

verus! {

/// Window size in packets.
pub const LOSS_WINDOW: usize = 64;

/// The window after recording one packet: the oldest record leaves once the
/// window is full.
pub open spec fn window_step(s: Seq<bool>, received: bool) -> Seq<bool> {
    if s.len() >= LOSS_WINDOW {
        s.drop_first().push(received)
    } else {
        s.push(received)
    }
}

/// The last `LOSS_WINDOW` records of `history` (all of it when shorter).
pub open spec fn last_window(history: Seq<bool>) -> Seq<bool> {
    if history.len() > LOSS_WINDOW {
        history.skip(history.len() - LOSS_WINDOW)
    } else {
        history
    }
}

/// Number of lost packets (`false` records) in `s`.
pub open spec fn lost_count(s: Seq<bool>) -> nat
    decreases s.len(),
{
    if s.len() == 0 {
        0
    } else {
        lost_count(s.drop_last()) + if s.last() {
            0nat
        } else {
            1nat
        }
    }
}

/// Received (`true`) / lost (`false`) status of the most recent packets.
#[derive(Debug)]
pub struct LossWindow {
    window: VecDeque<bool>,
}

impl View for LossWindow {
    type V = Seq<bool>;

    closed spec fn view(&self) -> Seq<bool> {
        self.window@
    }
}

impl LossWindow {
    /// An empty window.
    pub fn new() -> (w: Self)
        ensures
            w@ == Seq::<bool>::empty(),
    {
        LossWindow { window: VecDeque::with_capacity(LOSS_WINDOW + 1) }
    }

    /// Record whether a packet was received (`true`) or lost.
    pub fn record(&mut self, received: bool)
        ensures
            final(self)@ == window_step(old(self)@, received),
    {
        if self.window.len() >= LOSS_WINDOW {
            let _ = self.window.pop_front();
        }
        self.window.push_back(received);
        proof {
            if old(self)@.len() >= LOSS_WINDOW {
                assert(old(self)@.subrange(1, old(self)@.len() as int) =~= old(self)@.drop_first());
            }
        }
    }

    /// Number of packets in the window.
    pub fn len(&self) -> (n: usize)
        ensures
            n == self@.len(),
    {
        self.window.len()
    }

    /// Whether the window is empty.
    pub fn is_empty(&self) -> (b: bool)
        ensures
            b == (self@.len() == 0),
    {
        self.window.len() == 0
    }

    /// Number of lost packets in the window.
    pub fn lost(&self) -> (n: usize)
        ensures
            n == lost_count(self@),
    {
        let mut n: usize = 0;
        let mut i: usize = 0;
        while i < self.window.len()
            invariant
                i <= self@.len(),
                self@ == self.window@,
                n == lost_count(self@.subrange(0, i as int)),
                n <= i,
            decreases self@.len() - i,
        {
            let ghost pre = self@.subrange(0, i as int);
            assert(self@.subrange(0, i + 1).drop_last() =~= pre);
            if !self.window[i] {
                n = n + 1;
            }
            i = i + 1;
        }
        assert(self@.subrange(0, self@.len() as int) =~= self@);
        n
    }
}

/// The window holds exactly the most recent `LOSS_WINDOW` records: if it
/// holds the last records of a history, recording one more packet makes it
/// hold the last records of the extended history. It never grows beyond
/// `LOSS_WINDOW`.
pub proof fn lemma_window_is_recent_history(history: Seq<bool>, received: bool)
    ensures
        window_step(last_window(history), received) == last_window(history.push(received)),
        last_window(history).len() <= LOSS_WINDOW,
{
    let h2 = history.push(received);
    if history.len() > LOSS_WINDOW {
        assert(history.skip(history.len() - LOSS_WINDOW).drop_first().push(received) =~= h2.skip(
            h2.len() - LOSS_WINDOW,
        ));
    } else if history.len() == LOSS_WINDOW {
        assert(history.drop_first().push(received) =~= h2.skip(h2.len() - LOSS_WINDOW));
    }
}

/// A window has at most as many lost packets as records.
pub proof fn lemma_lost_at_most_len(s: Seq<bool>)
    ensures
        lost_count(s) <= s.len(),
    decreases s.len(),
{
    if s.len() > 0 {
        lemma_lost_at_most_len(s.drop_last());
    }
}

} // verus!
