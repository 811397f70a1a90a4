//! Lifecycle management of ephemeral voice rooms: an in-memory store of guilds, join
//! channels and voice channels with owner and presence indices whose consistency is
//! proved, and the decisions that drive channel creation, ownership and teardown.
//!
//! The decisions are plain functions from the store and an event to the next store and
//! the remote work to perform; performing that work is left to the caller.

pub mod model;
pub mod store;
pub mod cache;
pub mod laws;
pub mod text;
pub mod lifecycle;
pub mod database;
pub mod commands;
pub mod sync;
