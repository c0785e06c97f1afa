//! The closed enumeration of supported networks.

use vstd::prelude::*;

verus! {

/// A supported network variant.
///
/// The enumeration is closed: every function keyed by a network is total
/// over it, and no "unknown network" value is representable. The order of
/// the variants is part of the public contract; new networks are appended
/// at the end.
#[derive(Clone, Copy, Debug, PartialEq, Eq, Hash, Structural)]
pub enum Network {
    /// Mainnet bitcoin.
    Bitcoin,
    /// The original testnet generation.
    Testnet,
    /// Signet.
    Signet,
    /// Local regression-test network.
    Regtest,
    /// The fourth testnet generation.
    Testnet4,
}

/// The ordinal position of a network in the enumeration.
pub open spec fn network_ordinal(n: Network) -> int {
    match n {
        Network::Bitcoin => 0,
        Network::Testnet => 1,
        Network::Signet => 2,
        Network::Regtest => 3,
        Network::Testnet4 => 4,
    }
}

impl Network {
    /// The ordinal position of this network in the enumeration, used for
    /// index-based lookups; always below the number of variants.
    pub fn ordinal(self) -> (r: usize)
        ensures
            r == network_ordinal(self),
            r < 5,
    {
        match self {
            Network::Bitcoin => 0,
            Network::Testnet => 1,
            Network::Signet => 2,
            Network::Regtest => 3,
            Network::Testnet4 => 4,
        }
    }
}

} // verus!
