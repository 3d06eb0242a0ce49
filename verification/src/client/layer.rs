//! Per-subscriber simulcast layer preference.
use vstd::prelude::*;

use crate::ids::SfuRid;

verus! {

broadcast use crate::ids::lemma_rid_view;

/// Whether a packet on layer `rid` should be forwarded to a subscriber whose
/// desired layer is `desired`: a packet without a layer (non-simulcast
/// publisher) always; a simulcast packet only on the desired layer.
pub fn matches(desired: SfuRid, rid: Option<SfuRid>) -> (r: bool)
    ensures
        r == match rid {
            None => true,
            Some(x) => x == desired,
        },
{
    match rid {
        None => true,
        Some(x) => x == desired,
    }
}

/// The metric label of a layer: `q`, `h`, `f` for the standard layers,
/// `other` for anything else.
pub open spec fn rid_label_of(r: SfuRid) -> Seq<char> {
    if r == SfuRid::spec_low() {
        seq!['q']
    } else if r == SfuRid::spec_medium() {
        seq!['h']
    } else if r == SfuRid::spec_high() {
        seq!['f']
    } else {
        seq!['o', 't', 'h', 'e', 'r']
    }
}

/// The metric label of a layer (`q` | `h` | `f` | `other`).
pub fn rid_label(r: SfuRid) -> (s: &'static str)
    ensures
        s@ == rid_label_of(r),
{
    if r == SfuRid::low() {
        proof {
            reveal_strlit("q");
        }
        "q"
    } else if r == SfuRid::medium() {
        proof {
            reveal_strlit("h");
        }
        "h"
    } else if r == SfuRid::high() {
        proof {
            reveal_strlit("f");
        }
        "f"
    } else {
        proof {
            reveal_strlit("other");
        }
        "other"
    }
}

} // verus!
