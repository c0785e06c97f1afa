//! The fixed genesis parameters of each supported network.

use vstd::prelude::*;

use crate::network::Network;

verus! {

/// The genesis parameters of one network: the coinbase message and output
/// payload pushed into the genesis scripts, and the header's timestamp,
/// compact target and nonce.
#[derive(Clone, Debug)]
pub struct GenesisParams {
    /// The message carried by the genesis input script.
    pub message: Vec<u8>,
    /// The payload of the genesis output script (a public key, or a
    /// placeholder where the network pays to an unspendable key).
    pub payload: Vec<u8>,
    /// The genesis header timestamp, in seconds since the epoch.
    pub time: u32,
    /// The genesis header's compact target, as a raw consensus value.
    pub bits: u32,
    /// The genesis header nonce.
    pub nonce: u32,
}

/// The coinbase message of the genesis input script: the contemporary
/// newspaper headline on most networks, and a later block hash notice on
/// the fourth testnet generation.
pub open spec fn genesis_message(n: Network) -> Seq<u8> {
    match n {
        Network::Testnet4 => seq![
            48u8, 51, 47, 77, 97, 121, 47, 50, 48, 50, 52, 32, 48, 48, 48, 48,
            48, 48, 48, 48, 48, 48, 48, 48, 48, 48, 48, 48, 48, 48, 48, 48,
            49, 101, 98, 100, 53, 56, 99, 50, 52, 52, 57, 55, 48, 98, 51, 97,
            97, 57, 100, 55, 56, 51, 98, 98, 48, 48, 49, 48, 49, 49, 102, 98,
            101, 56, 101, 97, 56, 101, 57, 56, 101, 48, 48, 101,
        ],
        _ => seq![
            84u8, 104, 101, 32, 84, 105, 109, 101, 115, 32, 48, 51, 47, 74, 97, 110,
            47, 50, 48, 48, 57, 32, 67, 104, 97, 110, 99, 101, 108, 108, 111, 114,
            32, 111, 110, 32, 98, 114, 105, 110, 107, 32, 111, 102, 32, 115, 101, 99,
            111, 110, 100, 32, 98, 97, 105, 108, 111, 117, 116, 32, 102, 111, 114, 32,
            98, 97, 110, 107, 115,
        ],
    }
}

/// The payload of the genesis output script: the original uncompressed
/// public key on most networks, and 33 zero bytes (an unspendable
/// compressed-key placeholder) on the fourth testnet generation.
pub open spec fn genesis_payload(n: Network) -> Seq<u8> {
    match n {
        Network::Testnet4 => seq![
            0u8, 0, 0, 0, 0, 0, 0, 0, 0, 0, 0, 0, 0, 0, 0, 0,
            0, 0, 0, 0, 0, 0, 0, 0, 0, 0, 0, 0, 0, 0, 0, 0,
            0,
        ],
        _ => seq![
            4u8, 103, 138, 253, 176, 254, 85, 72, 39, 25, 103, 241, 166, 113, 48, 183,
            16, 92, 214, 168, 40, 224, 57, 9, 166, 121, 98, 224, 234, 31, 97, 222,
            182, 73, 246, 188, 63, 76, 239, 56, 196, 243, 85, 4, 229, 30, 193, 18,
            222, 92, 56, 77, 247, 186, 11, 141, 87, 138, 76, 112, 43, 107, 241, 29,
            95,
        ],
    }
}

/// The genesis header timestamp of each network.
pub open spec fn genesis_time(n: Network) -> u32 {
    match n {
        Network::Bitcoin => 1231006505,
        Network::Testnet => 1296688602,
        Network::Signet => 1598918400,
        Network::Regtest => 1296688602,
        Network::Testnet4 => 1714777860,
    }
}

/// The genesis header's compact target of each network, as a raw consensus
/// value.
pub open spec fn genesis_bits(n: Network) -> u32 {
    match n {
        Network::Bitcoin => 0x1d00ffff,
        Network::Testnet => 0x1d00ffff,
        Network::Signet => 0x1e0377ae,
        Network::Regtest => 0x207fffff,
        Network::Testnet4 => 0x1d00ffff,
    }
}

/// The genesis header nonce of each network.
pub open spec fn genesis_nonce(n: Network) -> u32 {
    match n {
        Network::Bitcoin => 2083236893,
        Network::Testnet => 414098458,
        Network::Signet => 52613770,
        Network::Regtest => 2,
        Network::Testnet4 => 393743547,
    }
}

/// Returns the genesis parameters of `network`; total over the closed
/// enumeration.
pub fn parameters_for(network: Network) -> (r: GenesisParams)
    ensures
        r.message@ == genesis_message(network),
        r.payload@ == genesis_payload(network),
        r.time == genesis_time(network),
        r.bits == genesis_bits(network),
        r.nonce == genesis_nonce(network),
{
    let message: Vec<u8> = match network {
        Network::Testnet4 => vec![
            48u8, 51, 47, 77, 97, 121, 47, 50, 48, 50, 52, 32, 48, 48, 48, 48,
            48, 48, 48, 48, 48, 48, 48, 48, 48, 48, 48, 48, 48, 48, 48, 48,
            49, 101, 98, 100, 53, 56, 99, 50, 52, 52, 57, 55, 48, 98, 51, 97,
            97, 57, 100, 55, 56, 51, 98, 98, 48, 48, 49, 48, 49, 49, 102, 98,
            101, 56, 101, 97, 56, 101, 57, 56, 101, 48, 48, 101,
        ],
        _ => vec![
            84u8, 104, 101, 32, 84, 105, 109, 101, 115, 32, 48, 51, 47, 74, 97, 110,
            47, 50, 48, 48, 57, 32, 67, 104, 97, 110, 99, 101, 108, 108, 111, 114,
            32, 111, 110, 32, 98, 114, 105, 110, 107, 32, 111, 102, 32, 115, 101, 99,
            111, 110, 100, 32, 98, 97, 105, 108, 111, 117, 116, 32, 102, 111, 114, 32,
            98, 97, 110, 107, 115,
        ],
    };
    assert(message@ =~= genesis_message(network));
    let payload: Vec<u8> = match network {
        Network::Testnet4 => vec![
            0u8, 0, 0, 0, 0, 0, 0, 0, 0, 0, 0, 0, 0, 0, 0, 0,
            0, 0, 0, 0, 0, 0, 0, 0, 0, 0, 0, 0, 0, 0, 0, 0,
            0,
        ],
        _ => vec![
            4u8, 103, 138, 253, 176, 254, 85, 72, 39, 25, 103, 241, 166, 113, 48, 183,
            16, 92, 214, 168, 40, 224, 57, 9, 166, 121, 98, 224, 234, 31, 97, 222,
            182, 73, 246, 188, 63, 76, 239, 56, 196, 243, 85, 4, 229, 30, 193, 18,
            222, 92, 56, 77, 247, 186, 11, 141, 87, 138, 76, 112, 43, 107, 241, 29,
            95,
        ],
    };
    assert(payload@ =~= genesis_payload(network));
    let (time, bits, nonce): (u32, u32, u32) = match network {
        Network::Bitcoin => (1231006505, 0x1d00ffff, 2083236893),
        Network::Testnet => (1296688602, 0x1d00ffff, 414098458),
        Network::Signet => (1598918400, 0x1e0377ae, 52613770),
        Network::Regtest => (1296688602, 0x207fffff, 2),
        Network::Testnet4 => (1714777860, 0x1d00ffff, 393743547),
    };
    GenesisParams { message, payload, time, bits, nonce }
}

} // verus!
