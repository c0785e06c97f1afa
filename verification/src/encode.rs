//! Low-level byte encodings of the consensus wire format: fixed-width
//! little-endian integers and the variable-length count prefix.

use vstd::prelude::*;

verus! {

/// The four little-endian bytes of `n`.
pub open spec fn le32(n: u32) -> Seq<u8> {
    seq![
        (n % 256) as u8,
        ((n / 256) % 256) as u8,
        ((n / 0x10000) % 256) as u8,
        ((n / 0x1000000) % 256) as u8,
    ]
}

/// The eight little-endian bytes of `n`.
pub open spec fn le64(n: u64) -> Seq<u8> {
    seq![
        (n % 256) as u8,
        ((n / 256) % 256) as u8,
        ((n / 0x10000) % 256) as u8,
        ((n / 0x1000000) % 256) as u8,
        ((n / 0x1_0000_0000) % 256) as u8,
        ((n / 0x100_0000_0000) % 256) as u8,
        ((n / 0x1_0000_0000_0000) % 256) as u8,
        ((n / 0x100_0000_0000_0000) % 256) as u8,
    ]
}

/// The variable-length encoding of a count: one byte below 0xfd, otherwise
/// a marker byte followed by the count in 2, 4 or 8 little-endian bytes.
pub open spec fn csize(n: nat) -> Seq<u8> {
    if n < 0xfd {
        seq![n as u8]
    } else if n <= 0xffff {
        seq![0xfdu8, (n % 256) as u8, ((n / 256) % 256) as u8]
    } else if n <= 0xffff_ffff {
        seq![0xfeu8] + le32(n as u32)
    } else {
        seq![0xffu8] + le64(n as u64)
    }
}

/// Appends all of `data` to `v`.
pub(crate) fn append_slice(v: &mut Vec<u8>, data: &[u8])
    ensures
        final(v)@ == old(v)@ + data@,
{
    let mut i: usize = 0;
    while i < data.len()
        invariant
            i <= data@.len(),
            v@ =~= old(v)@ + data@.subrange(0, i as int),
        decreases data@.len() - i,
    {
        let b = data[i];
        v.push(b);
        assert(v@ =~= old(v)@ + data@.subrange(0, i + 1));
        i = i + 1;
    }
    assert(data@.subrange(0, data@.len() as int) =~= data@);
}

/// Appends the four little-endian bytes of `n` to `v`.
pub(crate) fn append_le32(v: &mut Vec<u8>, n: u32)
    ensures
        final(v)@ == old(v)@ + le32(n),
{
    v.push((n % 256) as u8);
    v.push(((n / 256) % 256) as u8);
    v.push(((n / 0x10000) % 256) as u8);
    v.push(((n / 0x1000000) % 256) as u8);
    assert(v@ =~= old(v)@ + le32(n));
}

/// Appends the eight little-endian bytes of `n` to `v`.
pub(crate) fn append_le64(v: &mut Vec<u8>, n: u64)
    ensures
        final(v)@ == old(v)@ + le64(n),
{
    v.push((n % 256) as u8);
    v.push(((n / 256) % 256) as u8);
    v.push(((n / 0x10000) % 256) as u8);
    v.push(((n / 0x1000000) % 256) as u8);
    v.push(((n / 0x1_0000_0000) % 256) as u8);
    v.push(((n / 0x100_0000_0000) % 256) as u8);
    v.push(((n / 0x1_0000_0000_0000) % 256) as u8);
    v.push(((n / 0x100_0000_0000_0000) % 256) as u8);
    assert(v@ =~= old(v)@ + le64(n));
}

/// Appends the variable-length encoding of the count `n` to `v`.
pub(crate) fn append_csize(v: &mut Vec<u8>, n: usize)
    ensures
        final(v)@ == old(v)@ + csize(n as nat),
{
    if n < 0xfd {
        v.push(n as u8);
        assert(v@ =~= old(v)@ + csize(n as nat));
    } else if n <= 0xffff {
        v.push(0xfd);
        v.push((n % 256) as u8);
        v.push(((n / 256) % 256) as u8);
        assert(v@ =~= old(v)@ + csize(n as nat));
    } else if n <= 0xffff_ffff {
        v.push(0xfe);
        append_le32(v, n as u32);
        assert(v@ =~= old(v)@ + csize(n as nat));
    } else {
        v.push(0xff);
        append_le64(v, n as u64);
        assert(v@ =~= old(v)@ + csize(n as nat));
    }
}

} // verus!
