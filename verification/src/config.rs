//! Configuration records consumed by the protocol core: one optional peer
//! entry per screen edge, and an optional port override for the local
//! endpoint. Loading these from disk is the embedding program's job; the
//! core only reads them.

use vstd::prelude::*;

verus! {

/// One configured peer: at most one of `ip` (a literal address) or
/// `host_name` (to be resolved by a forward DNS lookup) is meaningful,
/// plus an optional per-peer port.
pub struct Client {
    pub host_name: Option<String>,
    pub ip: Option<String>,
    pub port: Option<u32>,
}

/// The four per-edge peer entries. An absent entry makes that direction
/// inert: no traffic is sent to or expected from it.
pub struct Clients {
    pub left: Option<Client>,
    pub right: Option<Client>,
    pub top: Option<Client>,
    pub bottom: Option<Client>,
}

/// The whole configuration surface the core consumes.
pub struct Config {
    pub client: Clients,
    pub port: Option<u16>,
}

/// A screen edge, naming which configured peer a frame is sent towards.
#[derive(Clone, Copy, PartialEq, Eq, Structural, Debug)]
pub enum Direction {
    Left,
    Right,
    Top,
    Bottom,
}

/// The peer entry that a direction selects.
pub open spec fn spec_client_for(clients: Clients, d: Direction) -> Option<Client> {
    match d {
        Direction::Left => clients.left,
        Direction::Right => clients.right,
        Direction::Top => clients.top,
        Direction::Bottom => clients.bottom,
    }
}

impl Clients {
    /// The peer entry configured for a direction, if any.
    pub fn get(&self, d: Direction) -> (r: &Option<Client>)
        ensures
            *r == spec_client_for(*self, d),
    {
        match d {
            Direction::Left => &self.left,
            Direction::Right => &self.right,
            Direction::Top => &self.top,
            Direction::Bottom => &self.bottom,
        }
    }
}

/// The local port the configuration asks for: the configured value, or the
/// well-known default when none is given.
pub open spec fn spec_effective_port(port: Option<u16>) -> u16 {
    match port {
        Some(p) => p,
        None => crate::DEFAULT_PORT,
    }
}

impl Config {
    /// The port to bind the local endpoint to.
    pub fn effective_port(&self) -> (r: u16)
        ensures
            r == spec_effective_port(self.port),
    {
        match self.port {
            Some(p) => p,
            None => crate::DEFAULT_PORT,
        }
    }
}

} // verus!
