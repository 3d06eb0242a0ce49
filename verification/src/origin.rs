//! Publisher origin: local client or upstream SFU relay connection.
use vstd::prelude::*;

verus! {

/// Whether a client represents a direct peer or an upstream SFU relay.
///
/// `Local` is the default: a direct WebRTC peer connection. `RelayFromSfu`
/// carries an opaque upstream edge identifier (URL or region) used for
/// logging and diagnostics only.
#[derive(Debug, Clone, PartialEq, Eq)]
pub enum ClientOrigin {
    /// A normal WebRTC peer connected directly to this SFU.
    Local,
    /// A relay connection from another SFU edge.
    RelayFromSfu(String),
}

impl ClientOrigin {
    /// Whether this origin is an upstream relay.
    pub fn is_relay(&self) -> (r: bool)
        ensures
            r == (self is RelayFromSfu),
    {
        match self {
            ClientOrigin::Local => false,
            ClientOrigin::RelayFromSfu(_) => true,
        }
    }
}

impl Default for ClientOrigin {
    fn default() -> (r: Self)
        ensures
            r is Local,
    {
        ClientOrigin::Local
    }
}

} // verus!
