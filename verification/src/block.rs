//! Block headers, blocks, and the block hash.

use vstd::prelude::*;

use crate::encode::{append_csize, append_le32, append_slice, csize, le32};
use crate::hashing::{sha256d, sha256d_of};
use crate::transaction::{ser_tx, Transaction};

verus! {

/// The compact encoding of the proof-of-work target, as it appears in a
/// block header.
#[derive(Clone, Copy, Debug, PartialEq, Eq, Structural)]
pub struct CompactTarget(pub u32);

impl CompactTarget {
    /// Wraps a raw consensus-encoded target value.
    pub fn from_consensus(bits: u32) -> (r: CompactTarget)
        ensures
            r.0 == bits,
    {
        CompactTarget(bits)
    }

    /// The raw consensus-encoded target value.
    pub fn to_consensus(self) -> (r: u32)
        ensures
            r == self.0,
    {
        self.0
    }
}

/// A block header.
#[derive(Clone, Copy, Debug)]
pub struct Header {
    /// The protocol version.
    pub version: i32,
    /// The hash of the preceding block; all-zero for the genesis block.
    pub prev_blockhash: [u8; 32],
    /// The root of the Merkle tree of the block's transaction identifiers.
    pub merkle_root: [u8; 32],
    /// The timestamp of the block, in seconds since the epoch.
    pub time: u32,
    /// The compact encoding of the proof-of-work target.
    pub bits: CompactTarget,
    /// The proof-of-work nonce.
    pub nonce: u32,
}

/// The 80-byte serialized form of a header.
pub open spec fn ser_header(h: Header) -> Seq<u8> {
    le32(h.version as u32) + h.prev_blockhash@ + h.merkle_root@ + le32(h.time) + le32(h.bits.0)
        + le32(h.nonce)
}

impl Header {
    /// Serializes the header into its 80-byte wire form.
    pub fn serialize(&self) -> (r: Vec<u8>)
        ensures
            r@ == ser_header(*self),
    {
        let mut v: Vec<u8> = Vec::new();
        append_le32(&mut v, self.version as u32);
        append_slice(&mut v, self.prev_blockhash.as_slice());
        append_slice(&mut v, self.merkle_root.as_slice());
        append_le32(&mut v, self.time);
        append_le32(&mut v, self.bits.0);
        append_le32(&mut v, self.nonce);
        assert(v@ =~= ser_header(*self));
        v
    }

    /// The block hash: the double hash of the serialized header.
    pub fn block_hash(&self) -> (r: [u8; 32])
        ensures
            r@ == sha256d_of(ser_header(*self)),
    {
        let bytes = self.serialize();
        sha256d(bytes.as_slice())
    }
}

/// A block: a header followed by the transactions it commits to.
#[derive(Clone, Debug)]
pub struct Block {
    /// The block header.
    pub header: Header,
    /// The transactions of the block, in order.
    pub txdata: Vec<Transaction>,
}

/// The concatenated legacy serialized forms of a sequence of transactions.
pub open spec fn ser_txs(s: Seq<Transaction>) -> Seq<u8>
    decreases s.len(),
{
    if s.len() == 0 {
        Seq::empty()
    } else {
        ser_txs(s.drop_last()) + ser_tx(s.last())
    }
}

/// The serialized form of a block in the legacy encoding: the header, then
/// the counted transactions. For a block none of whose transactions carries
/// witness data — the genesis block among them — this is the wire form.
pub open spec fn ser_block(b: Block) -> Seq<u8> {
    ser_header(b.header) + csize(b.txdata@.len()) + ser_txs(b.txdata@)
}

/// Extending a sequence of transactions by one element appends that
/// element's serialized form.
proof fn lemma_ser_txs_snoc(s: Seq<Transaction>, i: int)
    requires
        0 <= i < s.len(),
    ensures
        ser_txs(s.subrange(0, i + 1)) == ser_txs(s.subrange(0, i)) + ser_tx(s[i]),
{
    let pre = s.subrange(0, i + 1);
    assert(pre.drop_last() =~= s.subrange(0, i));
    assert(pre.last() == s[i]);
}

/// The serialized form of a single transaction stands alone in the
/// serialization of a one-transaction sequence.
pub proof fn lemma_ser_txs_singleton(s: Seq<Transaction>)
    requires
        s.len() == 1,
    ensures
        ser_txs(s) == ser_tx(s[0]),
{
    assert(s.drop_last() =~= Seq::<Transaction>::empty());
    assert(ser_txs(Seq::<Transaction>::empty()) == Seq::<u8>::empty());
    assert(ser_txs(s) == ser_txs(s.drop_last()) + ser_tx(s.last()));
    assert(Seq::<u8>::empty() + ser_tx(s[0]) =~= ser_tx(s[0]));
}

impl Block {
    /// Serializes the block in its legacy form.
    pub fn serialize(&self) -> (r: Vec<u8>)
        ensures
            r@ == ser_block(*self),
    {
        let mut v = self.header.serialize();
        append_csize(&mut v, self.txdata.len());
        let ghost pre_txs = v@;
        let mut i: usize = 0;
        while i < self.txdata.len()
            invariant
                i <= self.txdata@.len(),
                v@ =~= pre_txs + ser_txs(self.txdata@.subrange(0, i as int)),
            decreases self.txdata@.len() - i,
        {
            let bytes = self.txdata[i].serialize();
            append_slice(&mut v, bytes.as_slice());
            proof {
                lemma_ser_txs_snoc(self.txdata@, i as int);
                assert(v@ =~= pre_txs + ser_txs(self.txdata@.subrange(0, i as int + 1)));
            }
            i = i + 1;
        }
        assert(self.txdata@.subrange(0, self.txdata@.len() as int) =~= self.txdata@);
        assert(v@ =~= ser_block(*self));
        v
    }
}

} // verus!
