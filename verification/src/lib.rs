//! A verified core for FreeBSD's Casper capability broker.
//!
//! The broker and its services are reached through native calls that this
//! crate never makes. Each function here takes what a native call left behind,
//! as plain values, and decides what the caller gets: a channel, a decoded
//! record, a limit list in progress, or an error.

pub mod error;
pub mod service;
pub mod channel;
pub mod memory;
pub mod group;
pub mod sysctl;
