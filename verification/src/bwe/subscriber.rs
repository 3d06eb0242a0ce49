//! Per-subscriber bandwidth-estimate terms.
use vstd::prelude::*;

use std::time::Instant;

verus! {

/// Browser-reported bandwidth budget (DataChannel `{"type":"budget","bps":N}`).
#[derive(Debug, Clone, Copy)]
pub struct ClientHint {
    /// Budget ceiling in bits per second.
    pub bps: u64,
    /// Monotonic timestamp when the hint was received.
    pub received_at: Instant,
}

/// Which ceiling term produced the winning minimum of a subscriber's
/// combined estimate, i.e. which signal is currently binding it.
#[derive(Debug, Clone, Copy, PartialEq, Eq, Hash, Structural)]
#[non_exhaustive]
pub enum BindingTerm {
    /// The delay-based estimate won `min(delay, loss)`.
    Delay,
    /// The loss-based estimate won `min(delay, loss)`.
    Loss,
    /// The engine's native GCC ceiling bound the minimum.
    Native,
    /// The GoogCC ceiling bound the minimum.
    GoogCc,
    /// A fresh browser budget hint bound the minimum.
    ClientHint,
}

/// The stable snake_case label of a term.
pub open spec fn binding_term_label(t: BindingTerm) -> Seq<char> {
    match t {
        BindingTerm::Delay => seq!['d', 'e', 'l', 'a', 'y'],
        BindingTerm::Loss => seq!['l', 'o', 's', 's'],
        BindingTerm::Native => seq!['n', 'a', 't', 'i', 'v', 'e'],
        BindingTerm::GoogCc => seq!['g', 'o', 'o', 'g', 'c', 'c'],
        BindingTerm::ClientHint => seq![
            'c', 'l', 'i', 'e', 'n', 't', '_', 'h', 'i', 'n', 't'
        ],
    }
}

impl BindingTerm {
    /// Every variant, in min-application order.
    pub fn all() -> (r: [BindingTerm; 5])
        ensures
            r@ == seq![
                BindingTerm::Delay,
                BindingTerm::Loss,
                BindingTerm::Native,
                BindingTerm::GoogCc,
                BindingTerm::ClientHint,
            ],
    {
        let r = [
            BindingTerm::Delay,
            BindingTerm::Loss,
            BindingTerm::Native,
            BindingTerm::GoogCc,
            BindingTerm::ClientHint,
        ];
        assert(r@ =~= seq![
            BindingTerm::Delay,
            BindingTerm::Loss,
            BindingTerm::Native,
            BindingTerm::GoogCc,
            BindingTerm::ClientHint,
        ]);
        r
    }

    /// Stable snake_case label for a metric label
    /// (`delay` | `loss` | `native` | `googcc` | `client_hint`).
    pub fn as_str(&self) -> (s: &'static str)
        ensures
            s@ == binding_term_label(*self),
    {
        match self {
            BindingTerm::Delay => {
                proof {
                    reveal_strlit("delay");
                }
                "delay"
            },
            BindingTerm::Loss => {
                proof {
                    reveal_strlit("loss");
                }
                "loss"
            },
            BindingTerm::Native => {
                proof {
                    reveal_strlit("native");
                }
                "native"
            },
            BindingTerm::GoogCc => {
                proof {
                    reveal_strlit("googcc");
                }
                "googcc"
            },
            BindingTerm::ClientHint => {
                proof {
                    reveal_strlit("client_hint");
                }
                "client_hint"
            },
        }
    }
}

/// The five labels are pairwise distinct, so a metric labelled by term
/// keeps one series per term.
pub proof fn lemma_binding_labels_distinct(a: BindingTerm, b: BindingTerm)
    ensures
        a != b ==> binding_term_label(a) != binding_term_label(b),
{
    if a != b {
        let (la, lb) = (binding_term_label(a), binding_term_label(b));
        if la.len() == lb.len() {
            assert(la[0] != lb[0] || la[1] != lb[1]);
        }
    }
}

} // verus!
