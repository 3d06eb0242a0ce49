//! Transport protocols of SFU datagrams.
use vstd::prelude::*;

verus! {

/// Transport protocol for an SFU datagram.
#[derive(Debug, Clone, Copy, PartialEq, Eq, Structural)]
#[non_exhaustive]
pub enum SfuProtocol {
    /// Plain UDP.
    Udp,
    /// UDP over TCP (ICE-TCP).
    Tcp,
    /// SSL over TCP (TURN).
    SslTcp,
    /// TLS over TCP (TURN).
    Tls,
}

} // verus!
