//! The immutable configuration aggregate a node is constructed from.
//!
//! Addresses are held as plain numeric values so that the orchestration
//! logic can be stated over them directly; the host program converts
//! them from and to its own socket-address representation.

use vstd::prelude::*;
use crate::identity::{identity_of, resolve, NetworkProfile, ProtocolIdentity};

verus! {

/// A host address, IPv4 or IPv6.
#[derive(Clone, Copy, Debug, PartialEq, Eq, Structural)]
pub enum HostAddr {
    V4(u8, u8, u8, u8),
    V6(u16, u16, u16, u16, u16, u16, u16, u16),
}

/// A socket endpoint: a host address together with a port.
#[derive(Clone, Copy, Debug, PartialEq, Eq, Structural)]
pub struct Endpoint {
    pub host: HostAddr,
    pub port: u16,
}

/// Everything the node collaborator is constructed from: data directory,
/// peer listen address, control-plane address, and the resolved protocol
/// identity.  Built once at startup and never mutated afterwards.
#[derive(Clone, Debug)]
pub struct NodeConfig {
    pub data_dir: String,
    pub listen_addr: Endpoint,
    pub control_addr: Endpoint,
    pub identity: ProtocolIdentity,
}

impl NodeConfig {
    /// The configuration holds the given fields, with the identity
    /// resolved from the given profile.
    pub open spec fn resolved_from(
        self,
        profile: NetworkProfile,
        data_dir: Seq<char>,
        listen_addr: Endpoint,
        control_addr: Endpoint,
    ) -> bool {
        &&& self.data_dir@ == data_dir
        &&& self.listen_addr == listen_addr
        &&& self.control_addr == control_addr
        &&& self.identity == identity_of(profile)
    }

    /// Builds the configuration, resolving the profile to its identity.
    pub fn new(
        profile: NetworkProfile,
        data_dir: String,
        listen_addr: Endpoint,
        control_addr: Endpoint,
    ) -> (c: NodeConfig)
        ensures
            c.resolved_from(profile, data_dir@, listen_addr, control_addr),
    {
        NodeConfig { data_dir, listen_addr, control_addr, identity: resolve(profile) }
    }
}

} // verus!
