use kymux_relay::pacer::PacingMode;
use kymux_relay::relay::{Framing, HeaderEvent, Relay, RelayAction};

fn header_bytes(word: u64, size: u32) -> Vec<u8> {
    let mut b = Vec::new();
    b.extend_from_slice(&word.to_be_bytes());
    b.extend_from_slice(&size.to_be_bytes());
    b
}

#[test]
fn eof_on_header_ends_relay_cleanly() {
    // A source that yields no bytes when a header is expected: the relay is
    // done, with nothing ordered written.
    let mut r = Relay::new(PacingMode::OriginRelative, true, Framing::EndpointHandshake);
    match r.on_header(HeaderEvent::EndOfStream, 0) {
        RelayAction::Stop => {}
        RelayAction::Forward { .. } => panic!("nothing may be written at end of stream"),
    }
    assert!(r.is_done());
}

#[test]
fn short_payload_ends_relay_after_forwarding() {
    let mut r = Relay::new(PacingMode::OriginRelative, true, Framing::EndpointHandshake);
    // Header declares 10 payload bytes.
    let ev = HeaderEvent::Bytes(header_bytes(1000, 10));
    let declared = match r.on_header(ev, 0) {
        RelayAction::Forward { payload_size, .. } => payload_size,
        RelayAction::Stop => panic!("a full header must be forwarded"),
    };
    assert_eq!(declared, 10);
    // Only 4 payload bytes could be copied: the relay ends; no further
    // paced attempt is made for a nonexistent packet.
    assert!(!r.on_payload_copied(4, declared));
    assert!(r.is_done());
}

#[test]
fn full_payload_keeps_relay_going() {
    let mut r = Relay::new(PacingMode::OriginRelative, true, Framing::EndpointHandshake);
    let ev = HeaderEvent::Bytes(header_bytes(1000, 3));
    let declared = match r.on_header(ev, 0) {
        RelayAction::Forward { payload_size, .. } => payload_size,
        RelayAction::Stop => panic!("a full header must be forwarded"),
    };
    assert!(r.on_payload_copied(3, declared));
    assert!(!r.is_done());
}

#[test]
fn forward_carries_paced_wait_and_reencoded_header() {
    let mut r = Relay::new(PacingMode::OriginRelative, true, Framing::EndpointHandshake);
    // First packet establishes the origin.
    match r.on_header(HeaderEvent::Bytes(header_bytes(1000, 0)), 0) {
        RelayAction::Forward { wait_micros, pts, .. } => {
            assert_eq!(wait_micros, 0);
            assert_eq!(pts, 1000);
        }
        RelayAction::Stop => panic!("a full header must be forwarded"),
    }
    // Key-frame packet at 5000 with 500 elapsed: wait 3500; byte 0 is
    // re-encoded, bytes 1-11 pass through.
    let b = header_bytes(0x4000_0000_0000_1388, 7);
    match r.on_header(HeaderEvent::Bytes(b.clone()), 500) {
        RelayAction::Forward { wait_micros, pts, prefix, header, payload_size } => {
            assert_eq!(wait_micros, 3500);
            assert_eq!(pts, 5000);
            assert!(prefix.is_empty());
            assert_eq!(header[0], 0x80 | ((b[0] & 0xC0) >> 1) | (b[0] & 0x1F));
            assert_eq!(&header[1..], &b[1..]);
            assert_eq!(payload_size, 7);
        }
        RelayAction::Stop => panic!("a full header must be forwarded"),
    }
}

#[test]
fn config_packets_are_forwarded_unpaced() {
    let mut r = Relay::new(PacingMode::OriginRelative, true, Framing::EndpointHandshake);
    // Config packet with a huge timestamp: forwarded at once, origin not set.
    let b = header_bytes(0x8000_0000_0098_9680, 2);
    match r.on_header(HeaderEvent::Bytes(b), 0) {
        RelayAction::Forward { wait_micros, .. } => assert_eq!(wait_micros, 0),
        RelayAction::Stop => panic!("a full header must be forwarded"),
    }
    assert_eq!(r.pacer.origin, None);
}

#[test]
fn raw_channel_framing_prefixes_each_header() {
    let mut r = Relay::new(PacingMode::Absolute, false, Framing::RawChannel);
    let b = header_bytes(0x0000_0000_0000_0400, 5);
    match r.on_header(HeaderEvent::Bytes(b.clone()), 0) {
        RelayAction::Forward { prefix, header, .. } => {
            assert_eq!(prefix, vec![0u8, 0, 0, 0]);
            // This variant passes the header through unchanged.
            assert_eq!(header, b);
        }
        RelayAction::Stop => panic!("a full header must be forwarded"),
    }
}
