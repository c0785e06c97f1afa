use bitcoin_genesis::chain_hash::ChainHash;
use bitcoin_genesis::genesis::{bitcoin_genesis_tx, build_genesis_tx, genesis_block};
use bitcoin_genesis::network::Network;
use bitcoin_genesis::params::{parameters_for, GenesisParams};
use bitcoin_genesis::script::ConstructionError;
use bitcoin_genesis::COIN_VALUE;

const ALL_NETWORKS: [Network; 5] = [
    Network::Bitcoin,
    Network::Testnet,
    Network::Signet,
    Network::Regtest,
    Network::Testnet4,
];

fn hex_bytes(s: &str) -> Vec<u8> {
    assert!(s.len() % 2 == 0);
    let digit = |c: u8| -> u8 {
        match c {
            b'0'..=b'9' => c - b'0',
            b'a'..=b'f' => c - b'a' + 10,
            _ => panic!("not a hex digit"),
        }
    };
    s.as_bytes().chunks(2).map(|p| digit(p[0]) * 16 + digit(p[1])).collect()
}

#[test]
fn chain_hash_equals_recomputed_genesis_hash() {
    for network in ALL_NETWORKS {
        let block = genesis_block(network);
        let recomputed = block.header.block_hash();
        let stored = ChainHash::using_genesis_block(network);
        assert_eq!(recomputed, *stored.as_bytes(), "{:?}", network);
    }
}

#[test]
fn merkle_root_is_the_coinbase_txid() {
    for network in ALL_NETWORKS {
        let block = genesis_block(network);
        assert_eq!(block.header.merkle_root, block.txdata[0].txid(), "{:?}", network);
    }
}

#[test]
fn prev_blockhash_is_all_zero() {
    for network in ALL_NETWORKS {
        let block = genesis_block(network);
        assert_eq!(block.header.prev_blockhash, [0u8; 32], "{:?}", network);
    }
}

#[test]
fn genesis_block_is_deterministic() {
    for network in ALL_NETWORKS {
        let first = genesis_block(network);
        let second = genesis_block(network);
        assert_eq!(first.serialize(), second.serialize(), "{:?}", network);
        assert_eq!(first.header.serialize(), second.header.serialize(), "{:?}", network);
        assert_eq!(
            first.txdata[0].serialize(),
            second.txdata[0].serialize(),
            "{:?}",
            network
        );
    }
}

#[test]
fn mainnet_and_regtest_header_parameters() {
    let mainnet = genesis_block(Network::Bitcoin);
    assert_eq!(mainnet.header.time, 1231006505);
    assert_eq!(mainnet.header.bits.to_consensus(), 0x1d00ffff);
    assert_eq!(mainnet.header.nonce, 2083236893);
    let regtest = genesis_block(Network::Regtest);
    assert_eq!(regtest.header.time, 1296688602);
    assert_eq!(regtest.header.bits.to_consensus(), 0x207fffff);
    assert_eq!(regtest.header.nonce, 2);
}

#[test]
fn header_parameters_of_the_other_networks() {
    let testnet = genesis_block(Network::Testnet);
    assert_eq!(testnet.header.time, 1296688602);
    assert_eq!(testnet.header.bits.to_consensus(), 0x1d00ffff);
    assert_eq!(testnet.header.nonce, 414098458);
    let signet = genesis_block(Network::Signet);
    assert_eq!(signet.header.time, 1598918400);
    assert_eq!(signet.header.bits.to_consensus(), 0x1e0377ae);
    assert_eq!(signet.header.nonce, 52613770);
    let testnet4 = genesis_block(Network::Testnet4);
    assert_eq!(testnet4.header.time, 1714777860);
    assert_eq!(testnet4.header.bits.to_consensus(), 0x1d00ffff);
    assert_eq!(testnet4.header.nonce, 393743547);
}

#[test]
fn mainnet_coinbase_message_is_the_headline() {
    let tx = bitcoin_genesis_tx(Network::Bitcoin);
    let script = tx.input[0].script_sig.as_bytes().to_vec();
    // marker push (5 bytes), non-minimal push of 4 (2 bytes), length byte
    let message = &script[8..script.len()];
    assert_eq!(script[7] as usize, message.len());
    assert_eq!(
        message,
        &b"The Times 03/Jan/2009 Chancellor on brink of second bailout for banks"[..]
    );
}

#[test]
fn testnet4_coinbase_message_is_a_distinct_ascii_string() {
    let tx = bitcoin_genesis_tx(Network::Testnet4);
    let script = tx.input[0].script_sig.as_bytes().to_vec();
    // marker push (5 bytes), non-minimal push of 4 (2 bytes), OP_PUSHDATA1
    // and a length byte
    assert_eq!(script[7], 0x4c);
    assert_eq!(script[8] as usize, script.len() - 9);
    let message = String::from_utf8(script[9..].to_vec()).unwrap();
    assert_eq!(
        message,
        "03/May/2024 000000000000000000001ebd58c244970b3aa9d783bb001011fbe8ea8e98e00e"
    );
    assert!(message.is_ascii());
    let mainnet_tx = bitcoin_genesis_tx(Network::Bitcoin);
    let mainnet_script = mainnet_tx.input[0].script_sig.as_bytes().to_vec();
    assert_ne!(&script[5..], &mainnet_script[5..]);
}

#[test]
fn mainnet_genesis_tx_serializes_to_the_known_bytes() {
    let tx = bitcoin_genesis_tx(Network::Bitcoin);
    let mut expected = hex_bytes("01000000");
    expected.extend(hex_bytes(
        "010000000000000000000000000000000000000000000000000000000000000000ffffffff",
    ));
    expected.extend(hex_bytes(
        "4d04ffff001d0104455468652054696d65732030332f4a616e2f323030392043",
    ));
    expected.extend(hex_bytes(
        "68616e63656c6c6f72206f6e206272696e6b206f66207365636f6e64206261696c",
    ));
    expected.extend(hex_bytes(
        "6f757420666f722062616e6b73ffffffff0100f2052a01000000434104678afdb0",
    ));
    expected.extend(hex_bytes(
        "fe5548271967f1a67130b7105cd6a828e03909a67962e0ea1f61deb649f6bc3f4c",
    ));
    expected.extend(hex_bytes(
        "ef38c4f35504e51ec112de5c384df7ba0b8d578a4c702b6bf11d5fac00000000",
    ));
    assert_eq!(tx.serialize(), expected);
}

#[test]
fn mainnet_genesis_txid_is_the_known_identifier() {
    let tx = bitcoin_genesis_tx(Network::Bitcoin);
    let mut expected = hex_bytes("4a5e1e4baab89f3a32518a88c31bc87f618f76673e2cc77ab2127b7afdeda33b");
    expected.reverse();
    assert_eq!(tx.txid().to_vec(), expected);
}

#[test]
fn mainnet_genesis_block_hash_is_the_known_hash() {
    let block = genesis_block(Network::Bitcoin);
    let mut expected = hex_bytes("000000000019d6689c085ae165831e934ff763ae46a2a6c172b3f1b60a8ce26f");
    expected.reverse();
    assert_eq!(block.header.block_hash().to_vec(), expected);
}

#[test]
fn genesis_output_pays_the_subsidy() {
    for network in ALL_NETWORKS {
        let tx = bitcoin_genesis_tx(network);
        assert_eq!(tx.version, 1, "{:?}", network);
        assert_eq!(tx.lock_time, 0, "{:?}", network);
        assert_eq!(tx.input.len(), 1, "{:?}", network);
        assert_eq!(tx.input[0].previous_output.txid, [0u8; 32], "{:?}", network);
        assert_eq!(tx.input[0].previous_output.vout, u32::MAX, "{:?}", network);
        assert_eq!(tx.input[0].sequence, u32::MAX, "{:?}", network);
        assert_eq!(tx.input[0].witness.stack.len(), 0, "{:?}", network);
        assert_eq!(tx.output.len(), 1, "{:?}", network);
        assert_eq!(tx.output[0].value, 50 * COIN_VALUE, "{:?}", network);
    }
}

#[test]
fn oversized_coinbase_message_is_rejected() {
    let base = parameters_for(Network::Bitcoin);
    let params = GenesisParams { message: vec![0x61; 521], ..base };
    assert_eq!(
        build_genesis_tx(&params).unwrap_err(),
        ConstructionError::OversizedPush { len: 521 }
    );
}

#[test]
fn oversized_output_payload_is_rejected() {
    let base = parameters_for(Network::Bitcoin);
    let params = GenesisParams { payload: vec![0x02; 600], ..base };
    assert_eq!(
        build_genesis_tx(&params).unwrap_err(),
        ConstructionError::OversizedPush { len: 600 }
    );
}

#[test]
fn boundary_sized_pushes_still_build() {
    let base = parameters_for(Network::Bitcoin);
    let params = GenesisParams {
        message: vec![0x61; 520],
        payload: vec![0x02; 520],
        ..base
    };
    let tx = build_genesis_tx(&params).unwrap();
    // OP_PUSHDATA2, two length bytes, then the payload
    let script = tx.input[0].script_sig.as_bytes().to_vec();
    assert_eq!(&script[7..10], &[0x4d, 0x08, 0x02]);
    assert_eq!(script.len(), 10 + 520);
}

#[test]
fn parameter_table_matches_the_built_header() {
    for network in ALL_NETWORKS {
        let params = parameters_for(network);
        let block = genesis_block(network);
        assert_eq!(params.time, block.header.time, "{:?}", network);
        assert_eq!(params.bits, block.header.bits.to_consensus(), "{:?}", network);
        assert_eq!(params.nonce, block.header.nonce, "{:?}", network);
    }
}
