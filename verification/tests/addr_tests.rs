use kymux_relay::addr::{
    addr_from_parts, parse_kymux_url, AddrError, EndpointWidth, UrlParts,
};
use kymux_relay::hex::parse_hex_bounded;

#[test]
fn parse_valid_url() {
    let a = parse_kymux_url("kymux://127.0.0.1:1234/2f", EndpointWidth::W16).unwrap();
    assert_eq!(a.host, b"127.0.0.1".to_vec());
    assert_eq!(a.port, 1234);
    assert_eq!(a.endpoint_id, 0x2F);
    assert_eq!(a.width, EndpointWidth::W16);
}

#[test]
fn parse_valid_url_with_leading_zeros() {
    let a = parse_kymux_url("kymux://10.0.0.2:9000/00ff", EndpointWidth::W16).unwrap();
    assert_eq!(a.endpoint_id, 0xFF);
}

#[test]
fn wrong_scheme_is_rejected() {
    assert_eq!(
        parse_kymux_url("http://127.0.0.1:1234/2f", EndpointWidth::W16),
        Err(AddrError::WrongScheme)
    );
}

#[test]
fn missing_host_is_rejected() {
    assert_eq!(
        parse_kymux_url("kymux:2f", EndpointWidth::W16),
        Err(AddrError::MissingHost)
    );
}

#[test]
fn missing_port_is_rejected() {
    assert_eq!(
        parse_kymux_url("kymux://127.0.0.1/2f", EndpointWidth::W16),
        Err(AddrError::MissingPort)
    );
}

#[test]
fn empty_path_is_rejected() {
    assert_eq!(
        parse_kymux_url("kymux://127.0.0.1:1234/", EndpointWidth::W16),
        Err(AddrError::EmptyPath)
    );
    assert_eq!(
        parse_kymux_url("kymux://127.0.0.1:1234", EndpointWidth::W16),
        Err(AddrError::EmptyPath)
    );
}

#[test]
fn invalid_endpoint_is_rejected() {
    assert_eq!(
        parse_kymux_url("kymux://127.0.0.1:1234/zz", EndpointWidth::W16),
        Err(AddrError::InvalidEndpoint)
    );
    // Too large for a 16-bit endpoint id, fine for a 64-bit one.
    assert_eq!(
        parse_kymux_url("kymux://127.0.0.1:1234/12345", EndpointWidth::W16),
        Err(AddrError::InvalidEndpoint)
    );
    let a = parse_kymux_url("kymux://127.0.0.1:1234/12345", EndpointWidth::W64).unwrap();
    assert_eq!(a.endpoint_id, 0x12345);
}

#[test]
fn malformed_url_is_rejected() {
    assert_eq!(
        parse_kymux_url("not a url", EndpointWidth::W16),
        Err(AddrError::MalformedUrl)
    );
}

#[test]
fn parts_are_checked_in_order() {
    // Components handed over directly, no URL parser involved.
    let parts = UrlParts {
        scheme: b"kymux".to_vec(),
        host: Some(b"::1".to_vec()),
        port: Some(7),
        path: b"/abCD".to_vec(),
    };
    let a = addr_from_parts(parts, EndpointWidth::W16).unwrap();
    assert_eq!(a.host, b"::1".to_vec());
    assert_eq!(a.port, 7);
    assert_eq!(a.endpoint_id, 0xABCD);

    let parts = UrlParts {
        scheme: b"kymu".to_vec(),
        host: None,
        port: None,
        path: Vec::new(),
    };
    assert_eq!(
        addr_from_parts(parts, EndpointWidth::W16),
        Err(AddrError::WrongScheme)
    );

    let parts = UrlParts {
        scheme: b"kymux".to_vec(),
        host: None,
        port: Some(7),
        path: b"/2f".to_vec(),
    };
    assert_eq!(
        addr_from_parts(parts, EndpointWidth::W16),
        Err(AddrError::MissingHost)
    );
}

#[test]
fn hex_parsing_matches_from_str_radix() {
    let cases: [(&[u8], u64, Option<u64>); 9] = [
        (b"2f", 0xFFFF, Some(0x2F)),
        (b"2F", 0xFFFF, Some(0x2F)),
        (b"+2f", 0xFFFF, Some(0x2F)),
        (b"ffff", 0xFFFF, Some(0xFFFF)),
        (b"10000", 0xFFFF, None),
        (b"00000000ff", 0xFFFF, Some(0xFF)),
        (b"", 0xFFFF, None),
        (b"+", 0xFFFF, None),
        (b"1g", 0xFFFF, None),
    ];
    for (s, bound, expected) in cases {
        assert_eq!(parse_hex_bounded(&s.to_vec(), bound), expected, "input {:?}", s);
        // The accepted inputs and values agree with the std parser the
        // original wire format was described against.
        if bound == 0xFFFF {
            let std_result = std::str::from_utf8(s)
                .ok()
                .and_then(|t| u16::from_str_radix(t, 16).ok())
                .map(u64::from);
            assert_eq!(std_result, expected, "input {:?}", s);
        }
    }
}

#[test]
fn hex_parsing_wide_bound() {
    assert_eq!(
        parse_hex_bounded(&b"ffffffffffffffff".to_vec(), u64::MAX),
        Some(u64::MAX)
    );
    assert_eq!(parse_hex_bounded(&b"10000000000000000".to_vec(), u64::MAX), None);
}
