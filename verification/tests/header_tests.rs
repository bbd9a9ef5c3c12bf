use kymux_relay::header::{decode, encode, reencode_first_byte, reencode_header, CodecError, MetaHeader};

fn header_bytes(word: u64, size: u32) -> Vec<u8> {
    let mut b = Vec::new();
    b.extend_from_slice(&word.to_be_bytes());
    b.extend_from_slice(&size.to_be_bytes());
    b
}

#[test]
fn decode_plain_header() {
    let b = header_bytes(0x0000_0000_0000_1234, 0x0102_0304);
    let h = decode(&b).unwrap();
    assert_eq!(h.pts, 0x1234);
    assert!(!h.is_config);
    assert!(!h.is_key);
    assert_eq!(h.payload_size, 0x0102_0304);
}

#[test]
fn decode_separates_flags_from_timestamp() {
    // Config bit (63) and key bit (62) set on top of a timestamp.
    let b = header_bytes(0xC000_0000_0000_0042, 9);
    let h = decode(&b).unwrap();
    assert!(h.is_config);
    assert!(h.is_key);
    assert_eq!(h.pts, 0x42);

    let b = header_bytes(0x8000_0000_0000_0007, 1);
    let h = decode(&b).unwrap();
    assert!(h.is_config);
    assert!(!h.is_key);
    assert_eq!(h.pts, 7);

    let b = header_bytes(0x4000_0000_0000_0007, 1);
    let h = decode(&b).unwrap();
    assert!(!h.is_config);
    assert!(h.is_key);
    assert_eq!(h.pts, 7);
}

#[test]
fn decode_masks_timestamp_to_62_bits() {
    // All 64 bits set: the flag bits come out as flags, never in the pts.
    let b = header_bytes(0xFFFF_FFFF_FFFF_FFFF, 0);
    let h = decode(&b).unwrap();
    assert_eq!(h.pts, 0x3FFF_FFFF_FFFF_FFFF);
    assert!(h.is_config);
    assert!(h.is_key);
}

#[test]
fn decode_short_input_is_malformed() {
    let b = vec![0u8; 11];
    assert_eq!(decode(&b), Err(CodecError::MalformedHeader));
    let b: Vec<u8> = Vec::new();
    assert_eq!(decode(&b), Err(CodecError::MalformedHeader));
}

#[test]
fn encode_decode_round_trip() {
    let cases = [
        MetaHeader { pts: 0, is_config: false, is_key: false, payload_size: 0 },
        MetaHeader { pts: 1000, is_config: false, is_key: true, payload_size: 17 },
        MetaHeader { pts: 0x3FFF_FFFF_FFFF_FFFF, is_config: true, is_key: false, payload_size: u32::MAX },
        MetaHeader { pts: 0x2AAA_AAAA_AAAA_AAAA, is_config: true, is_key: true, payload_size: 1 },
    ];
    for h in cases {
        let e = encode(&h);
        assert_eq!(e.len(), 12);
        let d = decode(&e).unwrap();
        assert_eq!(d, h);
        // Mask invariance: the decoded timestamp never carries flag bits.
        assert_eq!(d.pts & !0x3FFF_FFFF_FFFF_FFFF, 0);
    }
}

#[test]
fn reencode_byte_vectors() {
    assert_eq!(reencode_first_byte(0xC5), 0xE5);
    assert_eq!(reencode_first_byte(0x05), 0x85);
    assert_eq!(reencode_first_byte(0x00), 0x80);
    assert_eq!(reencode_first_byte(0x40), 0xA0);
    assert_eq!(reencode_first_byte(0x80), 0xC0);
    assert_eq!(reencode_first_byte(0x1F), 0x9F);
    // Bit 5 of the source byte is discarded by the destination layout.
    assert_eq!(reencode_first_byte(0x20), 0x80);
}

#[test]
fn reencode_touches_only_byte_zero() {
    let mut b = header_bytes(0xC5A1_B2C3_D4E5_F601, 0x1122_3344);
    let orig = b.clone();
    reencode_header(&mut b);
    assert_eq!(b[0], 0xE5);
    assert_eq!(&b[1..], &orig[1..]);

    let mut b = header_bytes(0x05FF_0000_0000_0001, 2);
    let orig = b.clone();
    reencode_header(&mut b);
    assert_eq!(b[0], 0x85);
    assert_eq!(&b[1..], &orig[1..]);
}
