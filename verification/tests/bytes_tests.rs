use kymux_relay::bytes::{be_u16_bytes, push_be_u32, push_be_u64, read_be_u32, read_be_u64};

#[test]
fn read_words_big_endian() {
    let b = vec![0x01, 0x02, 0x03, 0x04, 0x05, 0x06, 0x07, 0x08, 0xAA, 0xBB, 0xCC, 0xDD];
    assert_eq!(read_be_u64(&b, 0), 0x0102_0304_0506_0708);
    assert_eq!(read_be_u32(&b, 8), 0xAABB_CCDD);
    assert_eq!(read_be_u32(&b, 0), 0x0102_0304);
}

#[test]
fn write_then_read_round_trip() {
    let mut out = Vec::new();
    push_be_u64(&mut out, 0xDEAD_BEEF_0123_4567);
    push_be_u32(&mut out, 0x89AB_CDEF);
    assert_eq!(out.len(), 12);
    assert_eq!(read_be_u64(&out, 0), 0xDEAD_BEEF_0123_4567);
    assert_eq!(read_be_u32(&out, 8), 0x89AB_CDEF);
    // Matches std's big-endian byte order.
    assert_eq!(&out[..8], &0xDEAD_BEEF_0123_4567u64.to_be_bytes());
}

#[test]
fn endpoint_id_bytes_big_endian() {
    assert_eq!(be_u16_bytes(0x2F), vec![0x00, 0x2F]);
    assert_eq!(be_u16_bytes(0xABCD), vec![0xAB, 0xCD]);
    assert_eq!(be_u16_bytes(0), vec![0, 0]);
}
