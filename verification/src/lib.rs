//! Core of a live powerlifting-meet scoreboard server.
//!
//! The crate models a meet's full state (`GlobalState`): versions, meet
//! configuration, roster of entries, and the "now lifting" cursor. A
//! submitted document arrives as a JSON-like tree ([`json::JsonValue`]),
//! is validated against the model's shape and consistency rules, and, if
//! accepted by the synchronization gateway, becomes the canonical state
//! that display clients read.

pub mod consistency;
pub mod decimal;
pub mod errors;
pub mod gateway;
pub mod json;
pub mod model;
pub mod parse;
pub mod serialize;
pub mod weight;
