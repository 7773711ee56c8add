//! Signaling and presence for a peer-to-peer conferencing application.
//!
//! The library decides what the conference protocol writes to the ledger and
//! whom it pushes to, which typed events a committed ledger record or a
//! relayed envelope gives, and which entries and links are valid. The host
//! (ledger reads and writes, pushes, clock) stays at the caller's edge: every
//! operation takes what the host returned as plain values and returns what
//! the host must do.

pub mod error;
pub mod identity;
pub mod conference;
pub mod message;
pub mod ledger;
pub mod presence;
pub mod relay;
pub mod signal;
pub mod classifier;
pub mod protocol;
pub mod membrane;
pub mod access;
pub mod version;
