//! Address-resolution policy: what to do with one configured peer entry.
//! The decision is made here and is exact — which of the entry's fields
//! wins, and which port applies. Carrying it out (parsing a literal
//! address, the DNS lookup itself) is network and platform work that the
//! embedding program performs as the chosen plan directs.

use crate::config::Client;
use vstd::prelude::*;

verus! {

/// How a configured peer entry is to be turned into a concrete address:
/// either the literal address is taken as it stands, or the host name goes
/// through one blocking forward DNS lookup and the first returned address
/// wins. Either way the chosen port applies.
pub enum PeerPlan {
    Literal { ip: String, port: u32 },
    Lookup { host: String, port: u32 },
}

/// A direction whose entry names neither a literal address nor a host name
/// cannot be resolved: a launch-time misconfiguration, reported to the
/// caller rather than turned into traffic.
#[derive(Clone, Copy, PartialEq, Eq, Structural, Debug)]
pub struct ConfigurationError;

/// The port a peer entry asks for: its own, or the well-known default.
pub open spec fn spec_peer_port(port: Option<u32>) -> u32 {
    match port {
        Some(p) => p,
        None => crate::DEFAULT_PORT as u32,
    }
}

/// The resolution decision for one entry: an absent entry is inert, a
/// literal address wins over a host name, and a bare entry is a
/// configuration error.
pub open spec fn spec_resolve(entry: Option<Client>) -> Result<
    Option<PeerPlan>,
    ConfigurationError,
> {
    match entry {
        None => Ok(None),
        Some(c) => match c.ip {
            Some(ip) => Ok(
                Some(PeerPlan::Literal { ip, port: spec_peer_port(c.port) }),
            ),
            None => match c.host_name {
                Some(host) => Ok(
                    Some(PeerPlan::Lookup { host, port: spec_peer_port(c.port) }),
                ),
                None => Err(ConfigurationError),
            },
        },
    }
}

/// Decides how one configured peer entry resolves.
///
/// Nothing for an absent entry; the literal address when one is given; a
/// DNS lookup plan when only a host name is given; a configuration error
/// when the entry names neither. The port is the entry's own, or the
/// well-known default.
pub fn resolve(entry: &Option<Client>) -> (r: Result<Option<PeerPlan>, ConfigurationError>)
    ensures
        r == spec_resolve(*entry),
{
    match entry {
        None => Ok(None),
        Some(c) => {
            let port = match c.port {
                Some(p) => p,
                None => crate::DEFAULT_PORT as u32,
            };
            match &c.ip {
                Some(ip) => Ok(Some(PeerPlan::Literal { ip: ip.clone(), port })),
                None => match &c.host_name {
                    Some(host) => Ok(Some(PeerPlan::Lookup { host: host.clone(), port })),
                    None => Err(ConfigurationError),
                },
            }
        },
    }
}

} // verus!
