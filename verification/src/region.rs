//! The Region codec: the fixed 12-byte wire format describing a buffer that
//! lives in guest linear memory, and the specification-level model of every
//! read and write the accessor performs against it.
//!
//! A Region is three little-endian `u32` words at a guest address `p`:
//! `offset` at `p`, `capacity` at `p + 4`, `length` at `p + 8`.
//! `offset == 0` is reserved to mean "null" and is never dereferenced.

use vstd::prelude::*;

verus! {

/// A decoded Region header.
#[derive(Clone, Copy, Debug, PartialEq, Eq, Structural)]
pub struct Region {
    /// Byte address of the buffer in guest linear memory.
    pub offset: u32,
    /// Bytes reserved at that address; fixed when the guest allocates.
    pub capacity: u32,
    /// Bytes currently valid; the only word the host ever rewrites.
    pub length: u32,
}

/// The value of a little-endian `u32` made of the four bytes `b0..b3`.
pub open spec fn u32_le(b0: u8, b1: u8, b2: u8, b3: u8) -> u32 {
    (b0 + b1 * 0x100 + b2 * 0x10000 + b3 * 0x1000000) as u32
}

/// The four little-endian bytes of `x`.
pub open spec fn u32_le_bytes(x: u32) -> Seq<u8> {
    seq![
        (x % 0x100) as u8,
        ((x / 0x100) % 0x100) as u8,
        ((x / 0x10000) % 0x100) as u8,
        ((x / 0x1000000) % 0x100) as u8,
    ]
}

/// The little-endian `u32` word stored at address `a` of memory `m`.
pub open spec fn word_at(m: Seq<u8>, a: int) -> u32
    recommends
        0 <= a,
        a + 4 <= m.len(),
{
    u32_le(m[a], m[a + 1], m[a + 2], m[a + 3])
}

/// The Region header stored at address `p` of memory `m`.
pub open spec fn region_at(m: Seq<u8>, p: int) -> Region
    recommends
        0 <= p,
        p + 12 <= m.len(),
{
    Region {
        offset: word_at(m, p),
        capacity: word_at(m, p + 4),
        length: word_at(m, p + 8),
    }
}

/// Decoding a word from its own little-endian bytes gives the word back.
pub proof fn lemma_u32_le_round_trip(x: u32)
    ensures
        u32_le(
            u32_le_bytes(x)[0],
            u32_le_bytes(x)[1],
            u32_le_bytes(x)[2],
            u32_le_bytes(x)[3],
        ) == x,
{
    assert((x % 0x100) + ((x / 0x100) % 0x100) * 0x100 + ((x / 0x10000) % 0x100) * 0x10000 + ((x
        / 0x1000000) % 0x100) * 0x1000000 == x) by (bit_vector);
}

/// Reads four bytes as a little-endian `u32`.
pub fn u32_from_le(b: &Vec<u8>) -> (r: u32)
    requires
        b@.len() == 4,
    ensures
        r == u32_le(b@[0], b@[1], b@[2], b@[3]),
{
    (b[0] as u32) + (b[1] as u32) * 0x100 + (b[2] as u32) * 0x10000 + (b[3] as u32) * 0x1000000
}

/// Writes a `u32` as its four little-endian bytes.
pub fn u32_to_le(x: u32) -> (r: Vec<u8>)
    ensures
        r@ == u32_le_bytes(x),
{
    let mut v: Vec<u8> = Vec::new();
    v.push((x % 0x100) as u8);
    v.push(((x / 0x100) % 0x100) as u8);
    v.push(((x / 0x10000) % 0x100) as u8);
    v.push(((x / 0x1000000) % 0x100) as u8);
    proof {
        assert(v@ =~= u32_le_bytes(x));
    }
    v
}

/// Memory `m` with `data` overwriting the bytes at `off..off + data.len()`.
pub open spec fn splice(m: Seq<u8>, off: int, data: Seq<u8>) -> Seq<u8>
    recommends
        0 <= off,
        off + data.len() <= m.len(),
{
    m.subrange(0, off).add(data).add(m.subrange(off + data.len(), m.len() as int))
}

pub proof fn lemma_splice_len(m: Seq<u8>, off: int, data: Seq<u8>)
    requires
        0 <= off,
        off + data.len() <= m.len(),
    ensures
        splice(m, off, data).len() == m.len(),
{
}

/// A splice changes exactly the spliced range: inside it the new bytes are
/// `data`, outside it the memory is untouched.
pub proof fn lemma_splice_index(m: Seq<u8>, off: int, data: Seq<u8>, i: int)
    requires
        0 <= off,
        off + data.len() <= m.len(),
        0 <= i < m.len(),
    ensures
        off <= i < off + data.len() ==> splice(m, off, data)[i] == data[i - off],
        !(off <= i < off + data.len()) ==> splice(m, off, data)[i] == m[i],
{
}

} // verus!
