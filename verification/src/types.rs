//! The entities that servers exchange and store.
//!
//! Identifiers are 128-bit UUIDs, held as their `u128` value. Timestamps are
//! nanoseconds since the Unix epoch, UTC.

use vstd::prelude::*;

pub mod auth;
pub mod channel;
pub mod message;
pub mod server;
pub mod user;
pub mod ws;

verus! {

/// A 128-bit identifier.
pub type Uuid = u128;

/// Nanoseconds since the Unix epoch, UTC.
pub type Timestamp = i128;

} // verus!
