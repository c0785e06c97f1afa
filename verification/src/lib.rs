//! Genesis data for Bitcoin-like networks.
//!
//! This crate constructs the genesis block and its single coinbase
//! transaction for each supported network, and exposes the 32-byte chain
//! hash that identifies each network. Everything is a pure function of the
//! selected network: two calls with the same selector yield byte-identical
//! results.

use vstd::prelude::*;

pub mod block;
pub mod chain_hash;
pub mod encode;
pub mod genesis;
pub mod hashing;
pub mod network;
pub mod params;
pub mod script;
pub mod transaction;

verus! {

/// How many satoshis are in "one bitcoin".
pub const COIN_VALUE: u64 = 100_000_000;

/// How many seconds between blocks we expect on average.
pub const TARGET_BLOCK_SPACING: u32 = 600;

/// How many blocks between diffchanges.
pub const DIFFCHANGE_INTERVAL: u32 = 2016;

/// How much time on average should occur between diffchanges.
pub const DIFFCHANGE_TIMESPAN: u32 = 14 * 24 * 3600;

/// The maximum allowed weight for a block (network rule).
pub const MAX_BLOCK_WEIGHT: u32 = 4_000_000;

/// The minimum transaction weight for a valid serialized transaction.
pub const MIN_TRANSACTION_WEIGHT: u32 = 4 * 60;

/// The factor that non-witness serialization data is multiplied by during
/// weight calculation.
pub const WITNESS_SCALE_FACTOR: usize = 4;

/// The maximum allowed number of signature check operations in a block.
pub const MAX_BLOCK_SIGOPS_COST: i64 = 80_000;

/// Mainnet pubkey address prefix.
pub const PUBKEY_ADDRESS_PREFIX_MAIN: u8 = 0;

/// Mainnet script address prefix.
pub const SCRIPT_ADDRESS_PREFIX_MAIN: u8 = 5;

/// Test (testnet, signet, regtest) pubkey address prefix.
pub const PUBKEY_ADDRESS_PREFIX_TEST: u8 = 111;

/// Test (testnet, signet, regtest) script address prefix.
pub const SCRIPT_ADDRESS_PREFIX_TEST: u8 = 196;

/// The maximum allowed size of a single script element, in bytes.
pub const MAX_SCRIPT_ELEMENT_SIZE: usize = 520;

/// How many blocks between halvings.
pub const SUBSIDY_HALVING_INTERVAL: u32 = 210_000;

/// Maximum allowed value for an integer in Script.
pub const MAX_SCRIPTNUM_VALUE: u32 = 0x80000000;

/// Number of blocks needed for an output from a coinbase transaction to be
/// spendable.
pub const COINBASE_MATURITY: u32 = 100;

/// The maximum value allowed in an output.
pub const MAX_MONEY: u64 = 21_000_000 * COIN_VALUE;

} // verus!
