//! Scripts and the script builder.
//!
//! A script is an opcode/push-data byte sequence. The builder appends data
//! pushes and opcodes; integer pushes exist in a minimal and a non-minimal
//! form, because both are valid on the wire and the genesis input script
//! requires the non-minimal one for byte-exact reproduction.

use vstd::prelude::*;

use crate::MAX_SCRIPT_ELEMENT_SIZE;

verus! {

/// The opcode that pops a signature and a public key and checks the
/// signature.
pub const OP_CHECKSIG: u8 = 0xac;

/// The opcode that pushes an empty array (the number 0).
pub const OP_0: u8 = 0x00;

/// The opcode whose next byte holds the length of the data to push.
pub const OP_PUSHDATA1: u8 = 0x4c;

/// The opcode whose next two bytes (little endian) hold the length of the
/// data to push.
pub const OP_PUSHDATA2: u8 = 0x4d;

/// The opcode that pushes the number -1.
pub const OP_PUSHNUM_NEG1: u8 = 0x4f;

/// One below the opcode that pushes the number 1; `OP_PUSHNUM_BASE + n`
/// pushes the number `n` for `n` in `1..=16`.
pub const OP_PUSHNUM_BASE: u8 = 0x50;

/// Failure to construct a script element or a genesis value.
#[derive(Clone, Copy, Debug, PartialEq, Eq, Structural)]
pub enum ConstructionError {
    /// A data push was attempted whose payload exceeds
    /// [`MAX_SCRIPT_ELEMENT_SIZE`] bytes; `len` is the offending length.
    OversizedPush { len: usize },
}

/// The little-endian base-256 digits of `n`, least significant first, with
/// no trailing zero digit.
pub open spec fn le_bytes(n: nat) -> Seq<u8>
    decreases n,
{
    if n == 0 {
        Seq::empty()
    } else {
        seq![(n % 256) as u8] + le_bytes(n / 256)
    }
}

/// 256 raised to the power `k`.
pub open spec fn exp256(k: nat) -> nat
    decreases k,
{
    if k == 0 {
        1nat
    } else {
        256 * exp256((k - 1) as nat)
    }
}

/// A magnitude below `exp256(k)` has at most `k` base-256 digits.
pub proof fn lemma_le_bytes_len(m: nat, k: nat)
    requires
        m < exp256(k),
    ensures
        le_bytes(m).len() <= k,
    decreases k,
{
    if m > 0 {
        assert(k != 0);
        vstd::arithmetic::div_mod::lemma_multiply_divide_lt(
            m as int,
            256,
            exp256((k - 1) as nat) as int,
        );
        lemma_le_bytes_len(m / 256, (k - 1) as nat);
    }
}

/// The sign-and-magnitude little-endian encoding that script uses for
/// integers: the base-256 digits of the magnitude, with the sign carried by
/// the top bit of the last byte (an extra byte is appended when the top
/// digit already uses that bit). Zero encodes as the empty sequence.
pub open spec fn script_int_bytes(n: int) -> Seq<u8> {
    if n == 0 {
        Seq::<u8>::empty()
    } else {
        let mag = (if n > 0 { n } else { -n }) as nat;
        let b = le_bytes(mag);
        if b.last() < 0x80 {
            if n > 0 {
                b
            } else {
                b.update(b.len() - 1, (b.last() + 0x80) as u8)
            }
        } else {
            if n > 0 {
                b + seq![0u8]
            } else {
                b + seq![0x80u8]
            }
        }
    }
}

/// The script encoding of a data push: a length prefix followed by the
/// payload. Lengths below 76 fit in the opcode itself; longer payloads use
/// `OP_PUSHDATA1` or `OP_PUSHDATA2`. Meaningful for payloads of at most
/// 65535 bytes, which covers every allowed script element.
pub open spec fn push_data_enc(d: Seq<u8>) -> Seq<u8> {
    if d.len() < 76 {
        seq![d.len() as u8] + d
    } else if d.len() < 256 {
        seq![OP_PUSHDATA1, d.len() as u8] + d
    } else {
        seq![OP_PUSHDATA2, (d.len() % 256) as u8, ((d.len() / 256) % 256) as u8] + d
    }
}

/// The minimal push of the integer `n`: dedicated opcodes for -1, 0 and
/// 1..=16, and a data push of the script integer encoding otherwise.
pub open spec fn push_int_enc(n: int) -> Seq<u8> {
    if n == -1 {
        seq![OP_PUSHNUM_NEG1]
    } else if n == 0 {
        seq![OP_0]
    } else if 1 <= n <= 16 {
        seq![(OP_PUSHNUM_BASE + n) as u8]
    } else {
        push_data_enc(script_int_bytes(n))
    }
}

/// An immutable opcode/push-data byte sequence.
#[derive(Clone, Debug)]
pub struct Script {
    bytes: Vec<u8>,
}

impl View for Script {
    type V = Seq<u8>;

    closed spec fn view(&self) -> Seq<u8> {
        self.bytes@
    }
}

impl Script {
    /// The raw bytes of the script.
    pub fn as_bytes(&self) -> (r: &[u8])
        ensures
            r@ == self@,
    {
        self.bytes.as_slice()
    }

    /// The length of the script in bytes.
    pub fn len(&self) -> (r: usize)
        ensures
            r == self@.len(),
    {
        self.bytes.len()
    }
}

/// An incremental builder of a [`Script`].
#[derive(Clone, Debug)]
pub struct Builder {
    script: Vec<u8>,
}

impl View for Builder {
    type V = Seq<u8>;

    closed spec fn view(&self) -> Seq<u8> {
        self.script@
    }
}

impl Builder {
    /// An empty builder.
    pub fn new() -> (r: Builder)
        ensures
            r@ == Seq::<u8>::empty(),
    {
        Builder { script: Vec::new() }
    }

    /// Appends a single opcode.
    pub fn push_opcode(self, op: u8) -> (r: Builder)
        ensures
            r@ == self@ + seq![op],
    {
        let mut script = self.script;
        script.push(op);
        assert(script@ =~= self@ + seq![op]);
        Builder { script }
    }

    /// Appends a data push of `data`, rejecting payloads over
    /// [`MAX_SCRIPT_ELEMENT_SIZE`] bytes.
    pub fn push_slice(self, data: &[u8]) -> (r: Result<Builder, ConstructionError>)
        ensures
            data@.len() <= MAX_SCRIPT_ELEMENT_SIZE ==> (r matches Ok(b) && b@ == self@
                + push_data_enc(data@)),
            data@.len() > MAX_SCRIPT_ELEMENT_SIZE ==> (r matches Err(e) && e
                == (ConstructionError::OversizedPush { len: data@.len() as usize })),
    {
        if data.len() > MAX_SCRIPT_ELEMENT_SIZE {
            return Err(ConstructionError::OversizedPush { len: data.len() });
        }
        let mut script = self.script;
        if data.len() < 76 {
            script.push(data.len() as u8);
        } else if data.len() < 256 {
            script.push(OP_PUSHDATA1);
            script.push(data.len() as u8);
        } else {
            script.push(OP_PUSHDATA2);
            script.push((data.len() % 256) as u8);
            script.push(((data.len() / 256) % 256) as u8);
        }
        crate::encode::append_slice(&mut script, data);
        assert(script@ =~= self@ + push_data_enc(data@));
        Ok(Builder { script })
    }

    /// Appends a minimal push of the integer `n`.
    pub fn push_int(self, n: i64) -> (r: Builder)
        requires
            n != i64::MIN,
        ensures
            r@ == self@ + push_int_enc(n as int),
    {
        if n == -1 {
            self.push_opcode(OP_PUSHNUM_NEG1)
        } else if n == 0 {
            self.push_opcode(OP_0)
        } else if 1 <= n && n <= 16 {
            self.push_opcode(OP_PUSHNUM_BASE + n as u8)
        } else {
            self.push_int_non_minimal(n)
        }
    }

    /// Appends a push of the integer `n` in its full script integer
    /// encoding, even where a dedicated single-byte opcode exists. Script
    /// validators accept both forms; the genesis input script requires this
    /// one.
    pub fn push_int_non_minimal(self, n: i64) -> (r: Builder)
        requires
            n != i64::MIN,
        ensures
            r@ == self@ + push_data_enc(script_int_bytes(n as int)),
    {
        let buf = script_int_vec(n);
        match self.push_slice(buf.as_slice()) {
            Ok(b) => b,
            Err(_) => unreached(),
        }
    }

    /// Finishes the builder into a script.
    pub fn into_script(self) -> (s: Script)
        ensures
            s@ == self@,
    {
        Script { bytes: self.script }
    }
}

/// Computes the script integer encoding of `n` as a byte vector.
fn script_int_vec(n: i64) -> (r: Vec<u8>)
    requires
        n != i64::MIN,
    ensures
        r@ == script_int_bytes(n as int),
        r@.len() <= 9,
{
    let mut v: Vec<u8> = Vec::new();
    if n == 0 {
        return v;
    }
    let neg = n < 0;
    let mut m: u64 = if neg {
        (-n) as u64
    } else {
        n as u64
    };
    let ghost mag: nat = m as nat;
    proof {
        assert(exp256(8) == 0x1_0000_0000_0000_0000) by {
            reveal_with_fuel(exp256, 9);
        }
        lemma_le_bytes_len(mag, 8);
    }
    while m > 0
        invariant
            le_bytes(mag) =~= v@ + le_bytes(m as nat),
            v@.len() <= le_bytes(mag).len(),
            mag > 0,
        decreases m,
    {
        let byte: u8 = (m % 256) as u8;
        proof {
            assert(le_bytes(m as nat) == seq![(m as nat % 256) as u8] + le_bytes(m as nat / 256));
            assert((m / 256) as nat == m as nat / 256);
            assert(le_bytes(mag) =~= (v@ + seq![byte]) + le_bytes(m as nat / 256));
        }
        v.push(byte);
        m = m / 256;
    }
    assert(v@ =~= le_bytes(mag));
    let last_idx = v.len() - 1;
    let last = v[last_idx];
    if last < 0x80 {
        if neg {
            v.set(last_idx, last + 0x80);
            assert(v@ =~= le_bytes(mag).update(le_bytes(mag).len() - 1, (le_bytes(mag).last()
                + 0x80) as u8));
        }
    } else {
        if neg {
            v.push(0x80);
            assert(v@ =~= le_bytes(mag) + seq![0x80u8]);
        } else {
            v.push(0x00);
            assert(v@ =~= le_bytes(mag) + seq![0u8]);
        }
    }
    v
}

} // verus!
