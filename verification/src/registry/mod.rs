//! Room-level decisions of the registry: what a pacer action announces, and
//! which layer hint each publisher gets.

pub mod fanout;
pub mod hints;
pub mod pacer_events;

pub use fanout::{detector_level, fanout_targets, FanoutEvent};
pub use hints::{hints_to_send, max_layer_per_publisher, publisher_hint_round, PublisherHint};
pub use pacer_events::{apply_pacer_action, PacerEvent};
