//! Network profile resolution.
//!
//! A user-selected network profile is mapped to the protocol identity
//! that the node collaborator is constructed with.  The mapping is a
//! total, pure function over a closed enumeration: every profile maps
//! to exactly one identity, and resolution cannot fail.

use vstd::prelude::*;

verus! {

/// The closed set of networks the node can be asked to join.
#[derive(Clone, Copy, Debug, PartialEq, Eq, Structural)]
pub enum NetworkProfile {
    Regtest,
    Testnet,
    Mainnet,
}

/// The protocol rule-set / wire-format variant the node operates under.
#[derive(Clone, Copy, Debug, PartialEq, Eq, Structural)]
pub enum ProtocolIdentity {
    Regtest,
    Testnet3,
    BitcoinV1,
}

/// The one identity each profile maps to.
pub open spec fn identity_of(p: NetworkProfile) -> ProtocolIdentity {
    match p {
        NetworkProfile::Regtest => ProtocolIdentity::Regtest,
        NetworkProfile::Testnet => ProtocolIdentity::Testnet3,
        NetworkProfile::Mainnet => ProtocolIdentity::BitcoinV1,
    }
}

/// Network Profile Resolver: pure and total, with no possibility of
/// failure.
pub fn resolve(p: NetworkProfile) -> (r: ProtocolIdentity)
    ensures
        r == identity_of(p),
{
    match p {
        NetworkProfile::Regtest => ProtocolIdentity::Regtest,
        NetworkProfile::Testnet => ProtocolIdentity::Testnet3,
        NetworkProfile::Mainnet => ProtocolIdentity::BitcoinV1,
    }
}

/// Law: for all three profiles the resolver returns exactly one, fixed
/// identity.
pub proof fn lemma_resolver_fixed()
    ensures
        identity_of(NetworkProfile::Regtest) == ProtocolIdentity::Regtest,
        identity_of(NetworkProfile::Testnet) == ProtocolIdentity::Testnet3,
        identity_of(NetworkProfile::Mainnet) == ProtocolIdentity::BitcoinV1,
{
}

} // verus!
