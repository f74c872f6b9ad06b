//! Keeps a bot's per-guild nickname and per-shard presence synchronized with
//! the current UTC date.
//!
//! The heart of the library is a pair of state machines: a paginated
//! enumeration of the guild collection with a bounded retry budget
//! ([`pagination`]), and the reconcile cycle that drives it and applies one
//! nickname update per guild and one presence update per shard
//! ([`reconcile`]). The driver that performs the network calls lives outside;
//! it asks the state machines what to do next and hands the outcomes back.

pub mod guild;
pub mod label;
pub mod pagination;
pub mod reconcile;

pub use guild::ApiError;
pub use guild::GuildSummary;
