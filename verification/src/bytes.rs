//! Little-endian 32-bit words, the unit in which every scalar of the
//! preset record is stored.

use vstd::prelude::*;

verus! {

/// The four little-endian bytes of a 32-bit word.
pub open spec fn u32_le_bytes(v: u32) -> Seq<u8> {
    seq![
        (v & 0xff) as u8,
        ((v >> 8) & 0xff) as u8,
        ((v >> 16) & 0xff) as u8,
        ((v >> 24) & 0xff) as u8,
    ]
}

/// The 32-bit word held by four little-endian bytes.
pub open spec fn u32_from_le_bytes(b: Seq<u8>) -> u32
    recommends
        b.len() == 4,
{
    (b[0] as u32) | ((b[1] as u32) << 8) | ((b[2] as u32) << 16) | ((b[3] as u32) << 24)
}

/// The word read from four little-endian bytes at offset `k`.
pub open spec fn word_at(b: Seq<u8>, k: int) -> u32
    recommends
        0 <= k,
        k + 4 <= b.len(),
{
    u32_from_le_bytes(b.subrange(k, k + 4))
}

/// Encoding a word and reading it back yields the word.
pub proof fn lemma_u32_le_round_trip(v: u32)
    ensures
        u32_from_le_bytes(u32_le_bytes(v)) == v,
{
    let b0 = (v & 0xff) as u8;
    let b1 = ((v >> 8) & 0xff) as u8;
    let b2 = ((v >> 16) & 0xff) as u8;
    let b3 = ((v >> 24) & 0xff) as u8;
    assert((b0 as u32) | ((b1 as u32) << 8) | ((b2 as u32) << 16) | ((b3 as u32) << 24) == v)
        by (bit_vector)
        requires
            b0 == (v & 0xff) as u8,
            b1 == ((v >> 8) & 0xff) as u8,
            b2 == ((v >> 16) & 0xff) as u8,
            b3 == ((v >> 24) & 0xff) as u8,
    ;
}

/// Appends a 32-bit word to the buffer, low byte first.
pub fn write_u32(buf: &mut Vec<u8>, val: u32)
    ensures
        final(buf)@ == old(buf)@ + u32_le_bytes(val),
{
    buf.push((val & 0xff) as u8);
    buf.push(((val >> 8) & 0xff) as u8);
    buf.push(((val >> 16) & 0xff) as u8);
    buf.push(((val >> 24) & 0xff) as u8);
    proof {
        assert(buf@ =~= old(buf)@ + u32_le_bytes(val));
    }
}

/// Reads the 32-bit word stored at `*offset`, advancing the offset.
pub fn read_u32(buf: &[u8], offset: &mut usize) -> (r: u32)
    requires
        *old(offset) + 4 <= buf@.len(),
    ensures
        *final(offset) == *old(offset) + 4,
        r == word_at(buf@, *old(offset) as int),
{
    let b0 = buf[*offset] as u32;
    let b1 = buf[*offset + 1] as u32;
    let b2 = buf[*offset + 2] as u32;
    let b3 = buf[*offset + 3] as u32;
    let r = b0 | (b1 << 8) | (b2 << 16) | (b3 << 24);
    proof {
        let k = *offset as int;
        assert(buf@.subrange(k, k + 4)[0] == buf@[k]);
        assert(buf@.subrange(k, k + 4)[1] == buf@[k + 1]);
        assert(buf@.subrange(k, k + 4)[2] == buf@[k + 2]);
        assert(buf@.subrange(k, k + 4)[3] == buf@[k + 3]);
    }
    *offset = *offset + 4;
    r
}

} // verus!
