//! The per-peer decision state: simulcast layer preference and filtering,
//! the bandwidth pacer driving it, and the pre-registered DataChannels.

pub mod dcs;
pub mod forward;
pub mod keyframe_gate;
pub mod layer;

pub use dcs::DataChannelList;
pub use keyframe_gate::{keyframe_request_due, KEYFRAME_REQUEST_MIN_GAP_MS};
pub use forward::{ForwardVerdict, PacerDrive, SubscriberForwarding};
