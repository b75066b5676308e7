//! Wire protocol for forwarding human-input events between two hosts on a
//! local network: a fixed-size little-endian codec for input events carried
//! as datagrams, a length-prefixed request/response exchange for on-demand
//! blob retrieval, and the address-resolution policy for configured peers.

pub mod config;
pub mod protocol;
pub mod request;
pub mod resolve;

use vstd::prelude::*;

verus! {

/// The well-known port used for both the event channel and the blob
/// listener when the configuration does not override it.
pub const DEFAULT_PORT: u16 = 42069;

} // verus!
