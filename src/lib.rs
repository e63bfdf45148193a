//! Converts documents written in a constrained markdown dialect into a
//! cross-referenced world description: rooms holding objects holding actions.
//!
//! Parsing is a three-level state machine over a stream of document events
//! ([`events::DocEvent`]); cross-references between actions are resolved in
//! a second pass over each finished room.
pub mod ids;
pub mod model;
pub mod text;
pub mod events;
pub mod action_machine;
pub mod object_machine;
pub mod room_machine;
pub mod resolve;
pub mod pipeline;
pub mod laws;
