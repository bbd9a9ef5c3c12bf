//! The 12-byte meta-header codec: decoding, encoding, and the re-encoding of
//! the first header byte into the destination multiplexer's flag layout.
//!
//! Wire layout (all fields big-endian): bytes 0-7 hold a 64-bit word whose
//! bit 63 is the config-packet flag, bit 62 the key-frame flag, and whose
//! low 62 bits are the presentation timestamp in microseconds; bytes 8-11
//! hold the payload size as a 32-bit word.

use vstd::prelude::*;

use crate::bytes::{
    be_bytes32, be_bytes64, be_word32, be_word64, lemma_be32_round_trip, lemma_be64_round_trip,
    push_be_u32, push_be_u64, read_be_u32, read_be_u64,
};

verus! {

/// Mask selecting the presentation-timestamp bits of the first header word.
pub const PTS_MASK: u64 = 0x3FFF_FFFF_FFFF_FFFF;

/// Bit 63 of the first header word: the packet carries codec configuration.
pub const CONFIG_FLAG: u64 = 0x8000_0000_0000_0000;

/// Bit 62 of the first header word: the packet is a key frame.
pub const KEY_FLAG: u64 = 0x4000_0000_0000_0000;

/// Length in bytes of the wire meta-header.
pub const HEADER_LEN: usize = 12;

/// A decoded meta-header.
#[derive(Clone, Copy, Debug, PartialEq, Eq, Structural)]
pub struct MetaHeader {
    /// Presentation timestamp in microseconds; fits in 62 bits.
    pub pts: u64,
    /// The packet carries codec configuration and is exempt from pacing.
    pub is_config: bool,
    /// The packet is a key frame.
    pub is_key: bool,
    /// Byte count of the packet body that follows the header.
    pub payload_size: u32,
}

impl MetaHeader {
    /// The timestamp carries only the bits the wire mask keeps.
    pub open spec fn wf(self) -> bool {
        self.pts <= PTS_MASK
    }
}

/// Decoding failures.
#[derive(Clone, Copy, Debug, PartialEq, Eq, Structural)]
pub enum CodecError {
    /// Fewer bytes than a full header were supplied.
    MalformedHeader,
}

/// The header fields read from the first 12 bytes of `s`.
pub open spec fn spec_decode(s: Seq<u8>) -> MetaHeader
    recommends
        s.len() >= 12,
{
    let w: u64 = be_word64(s.subrange(0, 8));
    MetaHeader {
        pts: w & PTS_MASK,
        is_config: w & CONFIG_FLAG != 0,
        is_key: w & KEY_FLAG != 0,
        payload_size: be_word32(s.subrange(8, 12)),
    }
}

/// The first header word carrying the timestamp and the two flag bits.
pub open spec fn spec_word(h: MetaHeader) -> u64 {
    (h.pts | (if h.is_config {
        CONFIG_FLAG
    } else {
        0
    })) | (if h.is_key {
        KEY_FLAG
    } else {
        0
    })
}

/// The 12 wire bytes of a header.
pub open spec fn spec_encode(h: MetaHeader) -> Seq<u8> {
    be_bytes64(spec_word(h)) + be_bytes32(h.payload_size)
}

/// Decode a meta-header from the first 12 bytes of `b`; fewer than 12 bytes
/// is the malformed (truncated) case.
pub fn decode(b: &Vec<u8>) -> (r: Result<MetaHeader, CodecError>)
    ensures
        b@.len() >= 12 ==> (r matches Ok(h) && h == spec_decode(b@) && h.wf()),
        b@.len() < 12 ==> r == Err::<MetaHeader, CodecError>(CodecError::MalformedHeader),
{
    if b.len() < 12 {
        return Err(CodecError::MalformedHeader);
    }
    let w: u64 = read_be_u64(b, 0);
    let size: u32 = read_be_u32(b, 8);
    proof {
        lemma_mask_keeps_bound(w);
    }
    Ok(
        MetaHeader {
            pts: w & PTS_MASK,
            is_config: w & CONFIG_FLAG != 0,
            is_key: w & KEY_FLAG != 0,
            payload_size: size,
        },
    )
}

/// Encode a header into its 12 wire bytes.
pub fn encode(h: &MetaHeader) -> (r: Vec<u8>)
    requires
        h.wf(),
    ensures
        r@ == spec_encode(*h),
        r@.len() == 12,
{
    let cb: u64 = if h.is_config {
        CONFIG_FLAG
    } else {
        0
    };
    let kb: u64 = if h.is_key {
        KEY_FLAG
    } else {
        0
    };
    let w: u64 = (h.pts | cb) | kb;
    let mut out: Vec<u8> = Vec::new();
    push_be_u64(&mut out, w);
    push_be_u32(&mut out, h.payload_size);
    assert(out@ =~= spec_encode(*h));
    out
}

/// Decoding the encoding of a well-formed header recovers it exactly.
pub proof fn lemma_header_round_trip(h: MetaHeader)
    requires
        h.wf(),
    ensures
        spec_decode(spec_encode(h)) == h,
{
    let w: u64 = spec_word(h);
    let cb: u64 = if h.is_config {
        CONFIG_FLAG
    } else {
        0
    };
    let kb: u64 = if h.is_key {
        KEY_FLAG
    } else {
        0
    };
    lemma_be64_round_trip(w);
    lemma_be32_round_trip(h.payload_size);
    assert(spec_encode(h).subrange(0, 8) =~= be_bytes64(w));
    assert(spec_encode(h).subrange(8, 12) =~= be_bytes32(h.payload_size));
    lemma_word_fields(h.pts, w, cb, kb);
}

/// Splitting a word built from a 62-bit timestamp and the two flag bits
/// recovers the timestamp and the flags.
proof fn lemma_word_fields(pts: u64, w: u64, cb: u64, kb: u64)
    by (bit_vector)
    requires
        pts <= 0x3FFF_FFFF_FFFF_FFFF,
        cb == 0 || cb == 0x8000_0000_0000_0000,
        kb == 0 || kb == 0x4000_0000_0000_0000,
        w == (pts | cb) | kb,
    ensures
        w & 0x3FFF_FFFF_FFFF_FFFF == pts,
        (w & 0x8000_0000_0000_0000 != 0) == (cb != 0),
        (w & 0x4000_0000_0000_0000 != 0) == (kb != 0),
{
}

/// Masking keeps a value within the mask.
proof fn lemma_mask_keeps_bound(w: u64)
    by (bit_vector)
    ensures
        w & 0x3FFF_FFFF_FFFF_FFFF <= 0x3FFF_FFFF_FFFF_FFFF,
{
}

/// The destination layout of the first header byte: the top bit is set
/// unconditionally, the two source flag bits move down one position, and the
/// low five timestamp bits pass through.
pub open spec fn reencode_byte(b: u8) -> u8 {
    0x80 | ((b & 0xC0) >> 1) | (b & 0x1F)
}

/// Re-encode the first byte of a header into the destination layout.
pub fn reencode_first_byte(b: u8) -> (r: u8)
    ensures
        r == reencode_byte(b),
{
    0x80 | ((b & 0xC0) >> 1) | (b & 0x1F)
}

/// Re-encode a header in place for the destination: only byte 0 changes,
/// bytes 1 onward are never altered.
pub fn reencode_header(h: &mut Vec<u8>)
    requires
        old(h)@.len() >= 1,
    ensures
        final(h)@.len() == old(h)@.len(),
        final(h)@[0] == reencode_byte(old(h)@[0]),
        forall|i: int| 1 <= i < old(h)@.len() ==> final(h)@[i] == old(h)@[i],
{
    let b0: u8 = h[0];
    let r: u8 = reencode_first_byte(b0);
    h.set(0, r);
}

/// Unless both source flag bits are set, re-encoding moves every first byte
/// off its re-encoded image: applying the formula a second time changes the
/// byte again.
pub proof fn lemma_reencode_not_idempotent(b: u8)
    requires
        b & 0xC0 != 0xC0,
    ensures
        reencode_byte(reencode_byte(b)) != reencode_byte(b),
{
    assert((0x80 | (((0x80 | ((b & 0xC0) >> 1) | (b & 0x1F)) & 0xC0) >> 1) | ((0x80 | ((b & 0xC0)
        >> 1) | (b & 0x1F)) & 0x1F)) != (0x80 | ((b & 0xC0) >> 1) | (b & 0x1F))) by (bit_vector)
        requires
            b & 0xC0 != 0xC0,
    ;
}

} // verus!
