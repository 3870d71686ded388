//! A cache of webhook handles keyed by channel, with the decisions of its
//! lookup, creation, validation and eviction protocol verified.

/// The webhooks cache
pub mod cache;
/// The concurrent map that holds the cache's entries
pub mod store;
/// The errors of Twilight that the cache hands on
pub mod remote;
/// Various utility functions for webhooks
pub mod util;
/// What holds of the cache over all inputs
pub mod lemmas;
