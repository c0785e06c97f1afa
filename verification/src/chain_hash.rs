//! The 32-byte hash that identifies a chain.

use vstd::prelude::*;

use crate::network::{network_ordinal, Network};

verus! {

/// The uniquely identifying hash of the target blockchain: the double hash
/// of the serialized genesis header of the network. It is held as one
/// constant per network, equal by rule to that recomputation, and treated
/// as an opaque comparable identity by consumers.
#[derive(Clone, Copy, Debug, PartialEq, Eq, PartialOrd, Ord, Hash)]
pub struct ChainHash([u8; 32]);

/// The chain hash bytes of each supported network. The genesis block hash
/// in its internal (little-endian) byte order.
pub open spec fn chain_hash_bytes(n: Network) -> Seq<u8> {
    match n {
        Network::Bitcoin => seq![
            111u8, 226, 140, 10, 182, 241, 179, 114, 193, 166, 162, 70, 174, 99, 247, 79,
            147, 30, 131, 101, 225, 90, 8, 156, 104, 214, 25, 0, 0, 0, 0, 0,
        ],
        Network::Testnet => seq![
            67u8, 73, 127, 215, 248, 38, 149, 113, 8, 244, 163, 15, 217, 206, 195, 174,
            186, 121, 151, 32, 132, 233, 14, 173, 1, 234, 51, 9, 0, 0, 0, 0,
        ],
        Network::Signet => seq![
            246u8, 30, 238, 59, 99, 163, 128, 164, 119, 160, 99, 175, 50, 178, 187, 201,
            124, 159, 249, 240, 31, 44, 66, 37, 233, 115, 152, 129, 8, 0, 0, 0,
        ],
        Network::Regtest => seq![
            6u8, 34, 110, 70, 17, 26, 11, 89, 202, 175, 18, 96, 67, 235, 91, 191,
            40, 195, 79, 58, 94, 51, 42, 31, 199, 178, 183, 60, 241, 136, 145, 15,
        ],
        Network::Testnet4 => seq![
            67u8, 240, 139, 218, 176, 80, 227, 91, 86, 124, 134, 75, 145, 244, 127, 80,
            174, 114, 90, 226, 222, 83, 188, 251, 186, 242, 132, 218, 0, 0, 0, 0,
        ],
    }
}

impl View for ChainHash {
    type V = Seq<u8>;

    closed spec fn view(&self) -> Seq<u8> {
        self.0@
    }
}

impl ChainHash {
    /// Wraps raw chain hash bytes.
    pub fn from_bytes(bytes: [u8; 32]) -> (r: ChainHash)
        ensures
            r@ == bytes@,
    {
        ChainHash(bytes)
    }

    /// The raw bytes of the chain hash.
    pub fn to_bytes(self) -> (r: [u8; 32])
        ensures
            r@ == self@,
    {
        self.0
    }

    /// A reference to the raw bytes of the chain hash.
    pub fn as_bytes(&self) -> (r: &[u8; 32])
        ensures
            r@ == self@,
    {
        &self.0
    }

    /// Returns the hash of the `network` genesis block for use as a chain
    /// hash, by ordinal lookup in the table of per-network constants. Total
    /// over the closed enumeration: the table holds one entry per variant,
    /// in variant order.
    pub fn using_genesis_block(network: Network) -> (r: ChainHash)
        ensures
            r@ == chain_hash_bytes(network),
    {
        let hashes: [ChainHash; 5] = [
            ChainHash(
                [
                    111u8, 226, 140, 10, 182, 241, 179, 114, 193, 166, 162, 70, 174, 99, 247, 79,
                    147, 30, 131, 101, 225, 90, 8, 156, 104, 214, 25, 0, 0, 0, 0, 0,
                ],
            ),
            ChainHash(
                [
                    67u8, 73, 127, 215, 248, 38, 149, 113, 8, 244, 163, 15, 217, 206, 195, 174,
                    186, 121, 151, 32, 132, 233, 14, 173, 1, 234, 51, 9, 0, 0, 0, 0,
                ],
            ),
            ChainHash(
                [
                    246u8, 30, 238, 59, 99, 163, 128, 164, 119, 160, 99, 175, 50, 178, 187, 201,
                    124, 159, 249, 240, 31, 44, 66, 37, 233, 115, 152, 129, 8, 0, 0, 0,
                ],
            ),
            ChainHash(
                [
                    6u8, 34, 110, 70, 17, 26, 11, 89, 202, 175, 18, 96, 67, 235, 91, 191,
                    40, 195, 79, 58, 94, 51, 42, 31, 199, 178, 183, 60, 241, 136, 145, 15,
                ],
            ),
            ChainHash(
                [
                    67u8, 240, 139, 218, 176, 80, 227, 91, 86, 124, 134, 75, 145, 244, 127, 80,
                    174, 114, 90, 226, 222, 83, 188, 251, 186, 242, 132, 218, 0, 0, 0, 0,
                ],
            ),
        ];
        let idx = network.ordinal();
        let r = hashes[idx];
        proof {
            match network {
                Network::Bitcoin => assert(r@ =~= chain_hash_bytes(network)),
                Network::Testnet => assert(r@ =~= chain_hash_bytes(network)),
                Network::Signet => assert(r@ =~= chain_hash_bytes(network)),
                Network::Regtest => assert(r@ =~= chain_hash_bytes(network)),
                Network::Testnet4 => assert(r@ =~= chain_hash_bytes(network)),
            }
        }
        r
    }
}

} // verus!
