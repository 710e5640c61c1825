//! Little-endian integers and fixed-size byte fields inside account and
//! instruction data.
use crate::key::Pubkey;
use vstd::prelude::*;

verus! {

/// The `u64` stored little-endian in the eight bytes of `b` from `off`.
pub open spec fn le_u64(b: Seq<u8>, off: int) -> u64 {
    (b[off] as u64) | ((b[off + 1] as u64) << 8u64) | ((b[off + 2] as u64) << 16u64) | ((b[off
        + 3] as u64) << 24u64) | ((b[off + 4] as u64) << 32u64) | ((b[off + 5] as u64) << 40u64)
        | ((b[off + 6] as u64) << 48u64) | ((b[off + 7] as u64) << 56u64)
}

/// The eight little-endian bytes of `v`.
pub open spec fn u64_le(v: u64) -> Seq<u8> {
    seq![
        (v & 0xff) as u8,
        ((v >> 8u64) & 0xff) as u8,
        ((v >> 16u64) & 0xff) as u8,
        ((v >> 24u64) & 0xff) as u8,
        ((v >> 32u64) & 0xff) as u8,
        ((v >> 40u64) & 0xff) as u8,
        ((v >> 48u64) & 0xff) as u8,
        ((v >> 56u64) & 0xff) as u8,
    ]
}

/// Reading back the bytes of `v` gives `v`.
pub proof fn lemma_u64_le_roundtrip(v: u64)
    ensures
        le_u64(u64_le(v), 0) == v,
{
    let s = u64_le(v);
    let b0 = s[0];
    let b1 = s[1];
    let b2 = s[2];
    let b3 = s[3];
    let b4 = s[4];
    let b5 = s[5];
    let b6 = s[6];
    let b7 = s[7];
    assert((b0 as u64) | ((b1 as u64) << 8u64) | ((b2 as u64) << 16u64) | ((b3 as u64) << 24u64)
        | ((b4 as u64) << 32u64) | ((b5 as u64) << 40u64) | ((b6 as u64) << 48u64) | ((b7 as u64)
        << 56u64) == v) by (bit_vector)
        requires
            b0 == (v & 0xff) as u8,
            b1 == ((v >> 8u64) & 0xff) as u8,
            b2 == ((v >> 16u64) & 0xff) as u8,
            b3 == ((v >> 24u64) & 0xff) as u8,
            b4 == ((v >> 32u64) & 0xff) as u8,
            b5 == ((v >> 40u64) & 0xff) as u8,
            b6 == ((v >> 48u64) & 0xff) as u8,
            b7 == ((v >> 56u64) & 0xff) as u8,
    ;
}

/// Reads the `u64` stored little-endian at `off`.
pub fn read_u64_le(b: &[u8], off: usize) -> (r: u64)
    requires
        off + 8 <= b@.len(),
    ensures
        r == le_u64(b@, off as int),
{
    (b[off] as u64) | ((b[off + 1] as u64) << 8u64) | ((b[off + 2] as u64) << 16u64) | ((b[off
        + 3] as u64) << 24u64) | ((b[off + 4] as u64) << 32u64) | ((b[off + 5] as u64) << 40u64)
        | ((b[off + 6] as u64) << 48u64) | ((b[off + 7] as u64) << 56u64)
}

/// Copies the eight bytes at `off`.
pub fn read_bytes8(b: &[u8], off: usize) -> (r: [u8; 8])
    requires
        off + 8 <= b@.len(),
    ensures
        r@ == b@.subrange(off as int, off + 8),
{
    let r = [b[off], b[off + 1], b[off + 2], b[off + 3], b[off + 4], b[off + 5], b[off + 6], b[off + 7]];
    assert(r@ =~= b@.subrange(off as int, off + 8));
    r
}

/// Reads the 32-byte address at `off`.
pub fn read_key(b: &[u8], off: usize) -> (r: Pubkey)
    requires
        off + 32 <= b@.len(),
    ensures
        r.0@ == b@.subrange(off as int, off + 32),
{
    let mut k = [0u8; 32];
    let n = b.len();
    let mut i: usize = 0;
    while i < 32
        invariant
            n == b@.len(),
            off + 32 <= b@.len(),
            i <= 32,
            forall|j: int| 0 <= j < i ==> k@[j] == b@[off + j],
        decreases 32 - i,
    {
        k[i] = b[off + i];
        i = i + 1;
    }
    assert(k@ =~= b@.subrange(off as int, off + 32));
    Pubkey(k)
}

/// Overwrites the bytes of `b` from `off` with `src`.
pub fn write_bytes(b: &mut Vec<u8>, off: usize, src: &[u8])
    requires
        off + src@.len() <= old(b)@.len(),
    ensures
        final(b)@ == old(b)@.subrange(0, off as int) + src@ + old(b)@.subrange(
            off + src@.len(),
            old(b)@.len() as int,
        ),
{
    let n = b.len();
    let mut i: usize = 0;
    while i < src.len()
        invariant
            n == old(b)@.len(),
            off + src@.len() <= old(b)@.len(),
            b@.len() == old(b)@.len(),
            i <= src@.len(),
            forall|j: int| 0 <= j < off ==> b@[j] == old(b)@[j],
            forall|j: int| 0 <= j < i ==> b@[off + j] == src@[j],
            forall|j: int| off + i <= j < b@.len() ==> b@[j] == old(b)@[j],
        decreases src@.len() - i,
    {
        b.set(off + i, src[i]);
        i = i + 1;
    }
    assert(b@ =~= old(b)@.subrange(0, off as int) + src@ + old(b)@.subrange(
        off + src@.len(),
        old(b)@.len() as int,
    ));
}

/// The eight little-endian bytes of `v`.
pub fn u64_to_le(v: u64) -> (r: [u8; 8])
    ensures
        r@ == u64_le(v),
{
    let r = [
        (v & 0xff) as u8,
        ((v >> 8u64) & 0xff) as u8,
        ((v >> 16u64) & 0xff) as u8,
        ((v >> 24u64) & 0xff) as u8,
        ((v >> 32u64) & 0xff) as u8,
        ((v >> 40u64) & 0xff) as u8,
        ((v >> 48u64) & 0xff) as u8,
        ((v >> 56u64) & 0xff) as u8,
    ];
    assert(r@ =~= u64_le(v));
    r
}

} // verus!
