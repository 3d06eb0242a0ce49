//! Video Frame Marking RTP header extension (RFC 9626, short form), which
//! exposes the temporal layer ID and frame metadata for H.264, VP9 and HEVC
//! without bitstream parsing.

pub mod frame_marking;

pub use frame_marking::FrameMarkingInfo;
