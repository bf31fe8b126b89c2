//! Plain-value model of a client's network identity.

use vstd::prelude::*;

verus! {

/// Network identity of a connected client: the de-facto session key.
/// The transport layer maps an IP address into the raw 128-bit form
/// (IPv4 addresses through their IPv6-mapped representation).
#[derive(Clone, Copy, PartialEq, Eq, Structural, Debug)]
pub struct NetAddress {
    pub ip: u128,
    pub port: u16,
}

/// Per-player connection data kept alongside the entity.
#[derive(Clone, Copy, PartialEq, Eq, Structural, Debug)]
pub struct PlayerServerInfo {
    pub addr: NetAddress,
}

} // verus!
