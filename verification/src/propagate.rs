//! Peer identifiers shared by the events the registry propagates.
use vstd::prelude::*;

verus! {

/// Monotonic per-process identifier for a connected peer.
#[derive(Debug, Clone, Copy, PartialEq, Eq, Hash, Structural)]
pub struct ClientId(pub u64);

impl core::ops::Deref for ClientId {
    type Target = u64;

    fn deref(&self) -> (r: &u64)
        ensures
            *r == self.0,
    {
        &self.0
    }
}

} // verus!
