//! Big-endian byte-order helpers: reading and writing the fixed-width
//! integer fields of the wire format.

use vstd::prelude::*;

verus! {

/// Big-endian interpretation of 8 bytes as a 64-bit word.
pub open spec fn be_word64(s: Seq<u8>) -> u64
    recommends
        s.len() == 8,
{
    ((s[0] as u64) << 56) | ((s[1] as u64) << 48) | ((s[2] as u64) << 40)
        | ((s[3] as u64) << 32) | ((s[4] as u64) << 24) | ((s[5] as u64) << 16)
        | ((s[6] as u64) << 8) | (s[7] as u64)
}

/// Big-endian interpretation of 4 bytes as a 32-bit word.
pub open spec fn be_word32(s: Seq<u8>) -> u32
    recommends
        s.len() == 4,
{
    ((s[0] as u32) << 24) | ((s[1] as u32) << 16) | ((s[2] as u32) << 8) | (s[3] as u32)
}

/// The 8 big-endian bytes of a 64-bit word.
pub open spec fn be_bytes64(v: u64) -> Seq<u8> {
    seq![
        ((v >> 56) & 0xff) as u8,
        ((v >> 48) & 0xff) as u8,
        ((v >> 40) & 0xff) as u8,
        ((v >> 32) & 0xff) as u8,
        ((v >> 24) & 0xff) as u8,
        ((v >> 16) & 0xff) as u8,
        ((v >> 8) & 0xff) as u8,
        (v & 0xff) as u8,
    ]
}

/// The 4 big-endian bytes of a 32-bit word.
pub open spec fn be_bytes32(v: u32) -> Seq<u8> {
    seq![((v >> 24) & 0xff) as u8, ((v >> 16) & 0xff) as u8, ((v >> 8) & 0xff) as u8, (v
        & 0xff) as u8]
}

/// The 2 big-endian bytes of a 16-bit word.
pub open spec fn be_bytes16(v: u16) -> Seq<u8> {
    seq![((v >> 8) & 0xff) as u8, (v & 0xff) as u8]
}

/// Reading back the bytes of a word gives the word.
pub proof fn lemma_be64_round_trip(v: u64)
    ensures
        be_word64(be_bytes64(v)) == v,
{
    let b0: u8 = ((v >> 56) & 0xff) as u8;
    let b1: u8 = ((v >> 48) & 0xff) as u8;
    let b2: u8 = ((v >> 40) & 0xff) as u8;
    let b3: u8 = ((v >> 32) & 0xff) as u8;
    let b4: u8 = ((v >> 24) & 0xff) as u8;
    let b5: u8 = ((v >> 16) & 0xff) as u8;
    let b6: u8 = ((v >> 8) & 0xff) as u8;
    let b7: u8 = (v & 0xff) as u8;
    assert(((b0 as u64) << 56) | ((b1 as u64) << 48) | ((b2 as u64) << 40) | ((b3 as u64) << 32)
        | ((b4 as u64) << 24) | ((b5 as u64) << 16) | ((b6 as u64) << 8) | (b7 as u64) == v)
        by (bit_vector)
        requires
            b0 == ((v >> 56) & 0xff) as u8,
            b1 == ((v >> 48) & 0xff) as u8,
            b2 == ((v >> 40) & 0xff) as u8,
            b3 == ((v >> 32) & 0xff) as u8,
            b4 == ((v >> 24) & 0xff) as u8,
            b5 == ((v >> 16) & 0xff) as u8,
            b6 == ((v >> 8) & 0xff) as u8,
            b7 == (v & 0xff) as u8,
    ;
}

/// Reading back the bytes of a 32-bit word gives the word.
pub proof fn lemma_be32_round_trip(v: u32)
    ensures
        be_word32(be_bytes32(v)) == v,
{
    let b0: u8 = ((v >> 24) & 0xff) as u8;
    let b1: u8 = ((v >> 16) & 0xff) as u8;
    let b2: u8 = ((v >> 8) & 0xff) as u8;
    let b3: u8 = (v & 0xff) as u8;
    assert(((b0 as u32) << 24) | ((b1 as u32) << 16) | ((b2 as u32) << 8) | (b3 as u32) == v)
        by (bit_vector)
        requires
            b0 == ((v >> 24) & 0xff) as u8,
            b1 == ((v >> 16) & 0xff) as u8,
            b2 == ((v >> 8) & 0xff) as u8,
            b3 == (v & 0xff) as u8,
    ;
}

/// Read the big-endian 64-bit word at `off`.
pub fn read_be_u64(b: &Vec<u8>, off: usize) -> (r: u64)
    requires
        off + 8 <= b@.len(),
    ensures
        r == be_word64(b@.subrange(off as int, off as int + 8)),
{
    let n: usize = b.len();
    let r: u64 = ((b[off] as u64) << 56) | ((b[off + 1] as u64) << 48) | ((b[off + 2] as u64) << 40)
        | ((b[off + 3] as u64) << 32) | ((b[off + 4] as u64) << 24) | ((b[off + 5] as u64) << 16)
        | ((b[off + 6] as u64) << 8) | (b[off + 7] as u64);
    proof {
        let s = b@.subrange(off as int, off as int + 8);
        assert(s[0] == b@[off as int]);
        assert(s[1] == b@[off as int + 1]);
        assert(s[2] == b@[off as int + 2]);
        assert(s[3] == b@[off as int + 3]);
        assert(s[4] == b@[off as int + 4]);
        assert(s[5] == b@[off as int + 5]);
        assert(s[6] == b@[off as int + 6]);
        assert(s[7] == b@[off as int + 7]);
    }
    r
}

/// Read the big-endian 32-bit word at `off`.
pub fn read_be_u32(b: &Vec<u8>, off: usize) -> (r: u32)
    requires
        off + 4 <= b@.len(),
    ensures
        r == be_word32(b@.subrange(off as int, off as int + 4)),
{
    let n: usize = b.len();
    let r: u32 = ((b[off] as u32) << 24) | ((b[off + 1] as u32) << 16) | ((b[off + 2] as u32) << 8) | (
    b[off + 3] as u32);
    proof {
        let s = b@.subrange(off as int, off as int + 4);
        assert(s[0] == b@[off as int]);
        assert(s[1] == b@[off as int + 1]);
        assert(s[2] == b@[off as int + 2]);
        assert(s[3] == b@[off as int + 3]);
    }
    r
}

/// Append the big-endian bytes of a 64-bit word.
pub fn push_be_u64(out: &mut Vec<u8>, v: u64)
    ensures
        final(out)@ == old(out)@ + be_bytes64(v),
{
    proof {
        lemma_shifted_byte_fits64(v);
    }
    out.push(((v >> 56) & 0xff) as u8);
    out.push(((v >> 48) & 0xff) as u8);
    out.push(((v >> 40) & 0xff) as u8);
    out.push(((v >> 32) & 0xff) as u8);
    out.push(((v >> 24) & 0xff) as u8);
    out.push(((v >> 16) & 0xff) as u8);
    out.push(((v >> 8) & 0xff) as u8);
    out.push((v & 0xff) as u8);
    assert(out@ =~= old(out)@ + be_bytes64(v));
}

/// Append the big-endian bytes of a 32-bit word.
pub fn push_be_u32(out: &mut Vec<u8>, v: u32)
    ensures
        final(out)@ == old(out)@ + be_bytes32(v),
{
    proof {
        lemma_shifted_byte_fits32(v);
    }
    out.push(((v >> 24) & 0xff) as u8);
    out.push(((v >> 16) & 0xff) as u8);
    out.push(((v >> 8) & 0xff) as u8);
    out.push((v & 0xff) as u8);
    assert(out@ =~= old(out)@ + be_bytes32(v));
}

/// The big-endian bytes of a 16-bit word, as written during the handshake.
pub fn be_u16_bytes(v: u16) -> (r: Vec<u8>)
    ensures
        r@ == be_bytes16(v),
{
    proof {
        assert((v >> 8) & 0xff < 256 && v & 0xff < 256) by (bit_vector);
    }
    let mut r: Vec<u8> = Vec::new();
    r.push(((v >> 8) & 0xff) as u8);
    r.push((v & 0xff) as u8);
    assert(r@ =~= be_bytes16(v));
    r
}

/// A byte masked out of a 64-bit word fits in 8 bits.
proof fn lemma_shifted_byte_fits64(v: u64)
    by (bit_vector)
    ensures
        (v >> 56) & 0xff < 256,
        (v >> 48) & 0xff < 256,
        (v >> 40) & 0xff < 256,
        (v >> 32) & 0xff < 256,
        (v >> 24) & 0xff < 256,
        (v >> 16) & 0xff < 256,
        (v >> 8) & 0xff < 256,
        v & 0xff < 256,
{
}

/// A byte masked out of a 32-bit word fits in 8 bits.
proof fn lemma_shifted_byte_fits32(v: u32)
    by (bit_vector)
    ensures
        (v >> 24) & 0xff < 256,
        (v >> 16) & 0xff < 256,
        (v >> 8) & 0xff < 256,
        v & 0xff < 256,
{
}

} // verus!
