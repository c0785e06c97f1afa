//! Construction of the genesis transaction and the genesis block.

use vstd::prelude::*;

use crate::block::{lemma_ser_txs_singleton, ser_block, ser_header, Block, CompactTarget, Header};
use crate::hashing::{sha256d_of, zero_hash};
use crate::network::Network;
use crate::params::{
    genesis_bits, genesis_message, genesis_nonce, genesis_payload, genesis_time, parameters_for,
    GenesisParams,
};
use crate::script::{
    push_data_enc, push_int_enc, script_int_bytes, Builder, ConstructionError, OP_CHECKSIG,
};
use crate::transaction::{
    lemma_ser_inputs_singleton, lemma_ser_outputs_singleton, ser_input, ser_output, ser_tx,
    OutPoint, Transaction, TxIn, TxOut, Witness,
};
use crate::{COIN_VALUE, MAX_SCRIPT_ELEMENT_SIZE};

verus! {

/// The historical numeric marker pushed first in every genesis input
/// script. It is the initial difficulty bits written as a script number; it
/// is unrelated to the header's `bits` field and has no algorithmic
/// derivation — it is preserved as an opaque per-era constant.
pub const GENESIS_SCRIPT_MARKER: i64 = 486604799;

/// The input script of a genesis transaction carrying the coinbase message
/// `msg`: a minimal push of the historical marker, a non-minimal push of
/// the integer 4, and a push of the message.
pub open spec fn genesis_sig_script(msg: Seq<u8>) -> Seq<u8> {
    push_int_enc(GENESIS_SCRIPT_MARKER as int) + push_data_enc(script_int_bytes(4))
        + push_data_enc(msg)
}

/// The output script of a genesis transaction paying to `payload`: a push
/// of the payload followed by a signature check.
pub open spec fn genesis_pubkey_script(payload: Seq<u8>) -> Seq<u8> {
    push_data_enc(payload) + seq![OP_CHECKSIG]
}

/// The shape of the genesis coinbase transaction built from the message
/// `msg` and the output payload `payload`: version 1, no lock time, one
/// null-referencing input carrying the message, one output paying the
/// 50-coin subsidy to the payload.
pub open spec fn is_genesis_tx(t: Transaction, msg: Seq<u8>, payload: Seq<u8>) -> bool {
    &&& t.version == 1
    &&& t.lock_time == 0
    &&& t.input@.len() == 1
    &&& t.input@[0].previous_output.txid@ == zero_hash()
    &&& t.input@[0].previous_output.vout == u32::MAX
    &&& t.input@[0].script_sig@ == genesis_sig_script(msg)
    &&& t.input@[0].sequence == u32::MAX
    &&& t.input@[0].witness.stack@.len() == 0
    &&& t.output@.len() == 1
    &&& t.output@[0].value == 50 * COIN_VALUE
    &&& t.output@[0].script_pubkey@ == genesis_pubkey_script(payload)
}

/// Builds the genesis coinbase transaction from explicit parameters,
/// rejecting a message or payload that exceeds the maximum script element
/// size. No partial value is produced on failure.
pub fn build_genesis_tx(params: &GenesisParams) -> (r: Result<Transaction, ConstructionError>)
    ensures
        params.message@.len() <= MAX_SCRIPT_ELEMENT_SIZE && params.payload@.len()
            <= MAX_SCRIPT_ELEMENT_SIZE ==> (r matches Ok(t) && is_genesis_tx(
            t,
            params.message@,
            params.payload@,
        )),
        params.message@.len() > MAX_SCRIPT_ELEMENT_SIZE ==> (r matches Err(e) && e
            == (ConstructionError::OversizedPush { len: params.message@.len() as usize })),
        params.message@.len() <= MAX_SCRIPT_ELEMENT_SIZE && params.payload@.len()
            > MAX_SCRIPT_ELEMENT_SIZE ==> (r matches Err(e) && e
            == (ConstructionError::OversizedPush { len: params.payload@.len() as usize })),
{
    let sig_builder = Builder::new().push_int(GENESIS_SCRIPT_MARKER).push_int_non_minimal(4);
    let in_script = match sig_builder.push_slice(params.message.as_slice()) {
        Ok(b) => b.into_script(),
        Err(e) => {
            return Err(e);
        },
    };
    assert(in_script@ =~= genesis_sig_script(params.message@));
    let out_script = match Builder::new().push_slice(params.payload.as_slice()) {
        Ok(b) => b.push_opcode(OP_CHECKSIG).into_script(),
        Err(e) => {
            return Err(e);
        },
    };
    assert(out_script@ =~= genesis_pubkey_script(params.payload@));
    let mut input: Vec<TxIn> = Vec::new();
    input.push(
        TxIn {
            previous_output: OutPoint::null(),
            script_sig: in_script,
            sequence: u32::MAX,
            witness: Witness::new(),
        },
    );
    let mut output: Vec<TxOut> = Vec::new();
    output.push(TxOut { value: 50 * COIN_VALUE, script_pubkey: out_script });
    Ok(Transaction { version: 1, lock_time: 0, input, output })
}

/// Constructs the coinbase (and only) transaction of the genesis block of
/// `network`.
pub fn bitcoin_genesis_tx(network: Network) -> (r: Transaction)
    ensures
        is_genesis_tx(r, genesis_message(network), genesis_payload(network)),
{
    let params = parameters_for(network);
    assert(genesis_message(network).len() <= MAX_SCRIPT_ELEMENT_SIZE);
    assert(genesis_payload(network).len() <= MAX_SCRIPT_ELEMENT_SIZE);
    match build_genesis_tx(&params) {
        Ok(t) => t,
        Err(_) => unreached(),
    }
}

/// The shape of the genesis block of network `n`: the single genesis
/// coinbase transaction, under a version-1 header whose previous-block hash
/// is all-zero, whose merkle root is the identifier of that transaction
/// (the root of a single-leaf tree is the leaf itself), and whose
/// timestamp, target and nonce are the network's genesis parameters.
pub open spec fn is_genesis_block(n: Network, b: Block) -> bool {
    &&& b.txdata@.len() == 1
    &&& is_genesis_tx(b.txdata@[0], genesis_message(n), genesis_payload(n))
    &&& b.header.version == 1
    &&& b.header.prev_blockhash@ == zero_hash()
    &&& b.header.merkle_root@ == sha256d_of(ser_tx(b.txdata@[0]))
    &&& b.header.time == genesis_time(n)
    &&& b.header.bits.0 == genesis_bits(n)
    &&& b.header.nonce == genesis_nonce(n)
}

/// Constructs and returns the genesis block of `network`.
pub fn genesis_block(network: Network) -> (r: Block)
    ensures
        is_genesis_block(network, r),
        r.header.merkle_root@ == sha256d_of(ser_tx(r.txdata@[0])),
        r.header.prev_blockhash@ == zero_hash(),
{
    let tx = bitcoin_genesis_tx(network);
    let merkle_root = tx.txid();
    let params = parameters_for(network);
    let mut txdata: Vec<Transaction> = Vec::new();
    txdata.push(tx);
    let prev_blockhash: [u8; 32] = [0u8; 32];
    assert(prev_blockhash@ =~= zero_hash());
    Block {
        header: Header {
            version: 1,
            prev_blockhash,
            merkle_root,
            time: params.time,
            bits: CompactTarget::from_consensus(params.bits),
            nonce: params.nonce,
        },
        txdata,
    }
}

/// Two genesis transactions built from the same message and payload
/// serialize to the same bytes.
proof fn lemma_genesis_tx_ser_equal(t1: Transaction, t2: Transaction, msg: Seq<u8>, payload: Seq<
    u8,
>)
    requires
        is_genesis_tx(t1, msg, payload),
        is_genesis_tx(t2, msg, payload),
    ensures
        ser_tx(t1) == ser_tx(t2),
{
    assert(ser_input(t1.input@[0]) == ser_input(t2.input@[0]));
    assert(ser_output(t1.output@[0]) == ser_output(t2.output@[0]));
    lemma_ser_inputs_singleton(t1.input@);
    lemma_ser_inputs_singleton(t2.input@);
    lemma_ser_outputs_singleton(t1.output@);
    lemma_ser_outputs_singleton(t2.output@);
}

/// Determinism of genesis construction: any two blocks of the genesis
/// shape for the same network are byte-identical once serialized. In
/// particular, two calls of `genesis_block` for one network yield
/// byte-identical results.
pub proof fn lemma_genesis_block_deterministic(n: Network, b1: Block, b2: Block)
    requires
        is_genesis_block(n, b1),
        is_genesis_block(n, b2),
    ensures
        ser_block(b1) == ser_block(b2),
{
    lemma_genesis_tx_ser_equal(
        b1.txdata@[0],
        b2.txdata@[0],
        genesis_message(n),
        genesis_payload(n),
    );
    assert(ser_header(b1.header) == ser_header(b2.header));
    lemma_ser_txs_singleton(b1.txdata@);
    lemma_ser_txs_singleton(b2.txdata@);
}

} // verus!
