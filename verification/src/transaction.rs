//! Transactions and their canonical serialized form.
//!
//! Only the legacy (witness-free) encoding is defined here: it is the form
//! whose double hash is the transaction identifier, and for a transaction
//! that carries no witness data it is also the wire form.

use vstd::prelude::*;

use crate::encode::{append_csize, append_le32, append_le64, append_slice, csize, le32, le64};
use crate::hashing::{sha256d, sha256d_of, zero_hash};
use crate::script::Script;

verus! {

/// A reference to an output of an earlier transaction.
#[derive(Clone, Copy, Debug)]
pub struct OutPoint {
    /// The identifier of the referenced transaction.
    pub txid: [u8; 32],
    /// The index of the referenced output within that transaction.
    pub vout: u32,
}

impl OutPoint {
    /// The null reference used by coinbase inputs: the all-zero identifier
    /// and the maximum output index.
    pub fn null() -> (r: OutPoint)
        ensures
            r.txid@ == zero_hash(),
            r.vout == u32::MAX,
    {
        let txid: [u8; 32] = [0u8; 32];
        assert(txid@ =~= zero_hash());
        OutPoint { txid, vout: u32::MAX }
    }
}

/// The witness attached to an input; empty for pre-segwit inputs and for
/// the genesis coinbase.
#[derive(Clone, Debug)]
pub struct Witness {
    /// The stack elements of the witness.
    pub stack: Vec<Vec<u8>>,
}

impl Witness {
    /// An empty witness.
    pub fn new() -> (r: Witness)
        ensures
            r.stack@.len() == 0,
    {
        Witness { stack: Vec::new() }
    }
}

impl Default for Witness {
    fn default() -> (r: Witness)
        ensures
            r.stack@.len() == 0,
    {
        Witness::new()
    }
}

/// A transaction input.
#[derive(Clone, Debug)]
pub struct TxIn {
    /// The output being spent.
    pub previous_output: OutPoint,
    /// The script satisfying the spending conditions.
    pub script_sig: Script,
    /// The sequence number.
    pub sequence: u32,
    /// The segregated witness data.
    pub witness: Witness,
}

/// A transaction output.
#[derive(Clone, Debug)]
pub struct TxOut {
    /// The value of the output, in satoshis.
    pub value: u64,
    /// The script encumbering the output.
    pub script_pubkey: Script,
}

/// A transaction.
#[derive(Clone, Debug)]
pub struct Transaction {
    /// The protocol version.
    pub version: i32,
    /// The earliest block height or time at which the transaction may be
    /// included, as a raw consensus value; zero means no restriction.
    pub lock_time: u32,
    /// The ordered inputs.
    pub input: Vec<TxIn>,
    /// The ordered outputs.
    pub output: Vec<TxOut>,
}

/// The serialized form of an output reference.
pub open spec fn ser_out_point(o: OutPoint) -> Seq<u8> {
    o.txid@ + le32(o.vout)
}

/// The serialized form of an input (without its witness).
pub open spec fn ser_input(i: TxIn) -> Seq<u8> {
    ser_out_point(i.previous_output) + csize(i.script_sig@.len()) + i.script_sig@ + le32(
        i.sequence,
    )
}

/// The serialized form of an output.
pub open spec fn ser_output(o: TxOut) -> Seq<u8> {
    le64(o.value) + csize(o.script_pubkey@.len()) + o.script_pubkey@
}

/// The concatenated serialized forms of a sequence of inputs.
pub open spec fn ser_inputs(s: Seq<TxIn>) -> Seq<u8>
    decreases s.len(),
{
    if s.len() == 0 {
        Seq::empty()
    } else {
        ser_inputs(s.drop_last()) + ser_input(s.last())
    }
}

/// The concatenated serialized forms of a sequence of outputs.
pub open spec fn ser_outputs(s: Seq<TxOut>) -> Seq<u8>
    decreases s.len(),
{
    if s.len() == 0 {
        Seq::empty()
    } else {
        ser_outputs(s.drop_last()) + ser_output(s.last())
    }
}

/// The legacy serialized form of a transaction: version, counted inputs,
/// counted outputs, lock time. Its double hash is the transaction
/// identifier.
pub open spec fn ser_tx(t: Transaction) -> Seq<u8> {
    le32(t.version as u32) + csize(t.input@.len()) + ser_inputs(t.input@) + csize(t.output@.len())
        + ser_outputs(t.output@) + le32(t.lock_time)
}

/// Extending a sequence of inputs by one element appends that element's
/// serialized form.
proof fn lemma_ser_inputs_snoc(s: Seq<TxIn>, i: int)
    requires
        0 <= i < s.len(),
    ensures
        ser_inputs(s.subrange(0, i + 1)) == ser_inputs(s.subrange(0, i)) + ser_input(s[i]),
{
    let pre = s.subrange(0, i + 1);
    assert(pre.drop_last() =~= s.subrange(0, i));
    assert(pre.last() == s[i]);
}

/// Extending a sequence of outputs by one element appends that element's
/// serialized form.
proof fn lemma_ser_outputs_snoc(s: Seq<TxOut>, i: int)
    requires
        0 <= i < s.len(),
    ensures
        ser_outputs(s.subrange(0, i + 1)) == ser_outputs(s.subrange(0, i)) + ser_output(s[i]),
{
    let pre = s.subrange(0, i + 1);
    assert(pre.drop_last() =~= s.subrange(0, i));
    assert(pre.last() == s[i]);
}

/// The serialized form of a single input stands alone in the serialization
/// of a one-input sequence.
pub proof fn lemma_ser_inputs_singleton(s: Seq<TxIn>)
    requires
        s.len() == 1,
    ensures
        ser_inputs(s) == ser_input(s[0]),
{
    assert(s.drop_last() =~= Seq::<TxIn>::empty());
    assert(ser_inputs(Seq::<TxIn>::empty()) == Seq::<u8>::empty());
    assert(ser_inputs(s) == ser_inputs(s.drop_last()) + ser_input(s.last()));
    assert(Seq::<u8>::empty() + ser_input(s[0]) =~= ser_input(s[0]));
}

/// The serialized form of a single output stands alone in the
/// serialization of a one-output sequence.
pub proof fn lemma_ser_outputs_singleton(s: Seq<TxOut>)
    requires
        s.len() == 1,
    ensures
        ser_outputs(s) == ser_output(s[0]),
{
    assert(s.drop_last() =~= Seq::<TxOut>::empty());
    assert(ser_outputs(Seq::<TxOut>::empty()) == Seq::<u8>::empty());
    assert(ser_outputs(s) == ser_outputs(s.drop_last()) + ser_output(s.last()));
    assert(Seq::<u8>::empty() + ser_output(s[0]) =~= ser_output(s[0]));
}

impl Transaction {
    /// Serializes the transaction in its legacy form.
    pub fn serialize(&self) -> (r: Vec<u8>)
        ensures
            r@ == ser_tx(*self),
    {
        let mut v: Vec<u8> = Vec::new();
        append_le32(&mut v, self.version as u32);
        append_csize(&mut v, self.input.len());
        let ghost pre_inputs = v@;
        let mut i: usize = 0;
        while i < self.input.len()
            invariant
                i <= self.input@.len(),
                v@ =~= pre_inputs + ser_inputs(self.input@.subrange(0, i as int)),
            decreases self.input@.len() - i,
        {
            let input = &self.input[i];
            append_slice(&mut v, input.previous_output.txid.as_slice());
            append_le32(&mut v, input.previous_output.vout);
            append_csize(&mut v, input.script_sig.len());
            append_slice(&mut v, input.script_sig.as_bytes());
            append_le32(&mut v, input.sequence);
            proof {
                lemma_ser_inputs_snoc(self.input@, i as int);
                assert(v@ =~= pre_inputs + ser_inputs(self.input@.subrange(0, i as int + 1)));
            }
            i = i + 1;
        }
        assert(self.input@.subrange(0, self.input@.len() as int) =~= self.input@);
        append_csize(&mut v, self.output.len());
        let ghost pre_outputs = v@;
        let mut j: usize = 0;
        while j < self.output.len()
            invariant
                j <= self.output@.len(),
                v@ =~= pre_outputs + ser_outputs(self.output@.subrange(0, j as int)),
            decreases self.output@.len() - j,
        {
            let output = &self.output[j];
            append_le64(&mut v, output.value);
            append_csize(&mut v, output.script_pubkey.len());
            append_slice(&mut v, output.script_pubkey.as_bytes());
            proof {
                lemma_ser_outputs_snoc(self.output@, j as int);
                assert(v@ =~= pre_outputs + ser_outputs(self.output@.subrange(0, j as int + 1)));
            }
            j = j + 1;
        }
        assert(self.output@.subrange(0, self.output@.len() as int) =~= self.output@);
        append_le32(&mut v, self.lock_time);
        assert(v@ =~= ser_tx(*self));
        v
    }

    /// The transaction identifier: the double hash of the legacy serialized
    /// form.
    pub fn txid(&self) -> (r: [u8; 32])
        ensures
            r@ == sha256d_of(ser_tx(*self)),
    {
        let bytes = self.serialize();
        sha256d(bytes.as_slice())
    }
}

} // verus!
