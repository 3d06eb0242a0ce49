//! AV1 codec support: Dependency Descriptor RTP header extension parsing
//! for temporal/spatial layer identification.

pub mod dependency_descriptor;

pub use dependency_descriptor::Av1DdInfo;
