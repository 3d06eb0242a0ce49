//! Verified core of a multi-client selective forwarding unit (SFU) kit.
//!
//! The library holds the decision logic of the SFU: RTP header-extension
//! parsers, the bandwidth-adaptive layer pacer, simulcast layer selection,
//! data-channel configuration and the small wire codecs. The I/O around it
//! (sockets, the WebRTC engine, metrics export) drives these functions.

pub mod av1;
pub mod vfm;
pub mod ids;
pub mod bwe;
pub mod bandwidth;
pub mod clock;
pub mod media;
pub mod net;
pub mod origin;
pub mod propagate;
pub mod keyframe;
pub mod sframe;
pub mod cc;
pub mod layer_selector;
pub mod dc;
pub mod client;
pub mod registry;
pub mod config;
