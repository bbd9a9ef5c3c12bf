//! The destination address model: {host, port, endpoint identifier}, and
//! the checks that turn the components of a `kymux://` URL into one. The
//! URL itself is split into components by the `url` crate; every check on
//! the components is verified here. Whether the host is an IP literal is
//! for the caller to decide when it resolves the address.

use vstd::prelude::*;

use crate::hex::{parse_hex_bounded, spec_parse_hex};

verus! {

/// Width of the destination's endpoint identifier on the wire.
#[derive(Clone, Copy, Debug, PartialEq, Eq, Structural)]
pub enum EndpointWidth {
    /// 2-byte identifier.
    W16,
    /// 8-byte identifier.
    W64,
}

/// Largest identifier a width can carry.
pub open spec fn spec_endpoint_bound(w: EndpointWidth) -> u64 {
    match w {
        EndpointWidth::W16 => 0xFFFF,
        EndpointWidth::W64 => 0xFFFF_FFFF_FFFF_FFFF,
    }
}

/// Exec mirror of the width's bound.
pub fn endpoint_bound(w: EndpointWidth) -> (b: u64)
    ensures
        b == spec_endpoint_bound(w),
{
    match w {
        EndpointWidth::W16 => 0xFFFF,
        EndpointWidth::W64 => 0xFFFF_FFFF_FFFF_FFFF,
    }
}

/// Why a destination address string was rejected.
#[derive(Clone, Copy, Debug, PartialEq, Eq, Structural)]
pub enum AddrError {
    /// Not a parsable URL at all.
    MalformedUrl,
    /// The scheme is not `kymux`.
    WrongScheme,
    /// The URL names no host.
    MissingHost,
    /// The URL names no port.
    MissingPort,
    /// The path holds nothing after the leading slash.
    EmptyPath,
    /// The path is not a hexadecimal identifier that fits the width.
    InvalidEndpoint,
}

/// A parsed destination: where to connect and which endpoint to select.
#[derive(Clone, Debug, PartialEq, Eq)]
pub struct KymuxAddr {
    /// Host as written in the URL, e.g. an IP literal.
    pub host: Vec<u8>,
    pub port: u16,
    pub endpoint_id: u64,
    pub width: EndpointWidth,
}

/// The components the URL parser hands over.
#[derive(Clone, Debug)]
pub struct UrlParts {
    /// Scheme bytes, lowercase.
    pub scheme: Vec<u8>,
    /// Host bytes, when the URL names a host.
    pub host: Option<Vec<u8>>,
    /// Explicit port, when the URL names one.
    pub port: Option<u16>,
    /// Path bytes, beginning with `/` whenever a host is present.
    pub path: Vec<u8>,
}

/// The scheme this relay accepts.
pub open spec fn spec_kymux_scheme() -> Seq<u8> {
    seq![107u8, 121u8, 109u8, 117u8, 120u8]
}

/// Spec view of an optional byte vector.
pub open spec fn opt_bytes(o: Option<Vec<u8>>) -> Option<Seq<u8>> {
    match o {
        Option::None => Option::None,
        Option::Some(v) => Option::Some(v@),
    }
}

/// The check order on URL components, and which failure each yields:
/// scheme, then host, then port, then a non-empty path, then the
/// hexadecimal endpoint identifier within the width's bound.
pub open spec fn spec_addr_error(
    scheme: Seq<u8>,
    host: Option<Seq<u8>>,
    port: Option<u16>,
    path: Seq<u8>,
    w: EndpointWidth,
) -> Option<AddrError> {
    if scheme != spec_kymux_scheme() {
        Option::Some(AddrError::WrongScheme)
    } else if host is None {
        Option::Some(AddrError::MissingHost)
    } else if port is None {
        Option::Some(AddrError::MissingPort)
    } else if path.len() < 2 {
        Option::Some(AddrError::EmptyPath)
    } else if spec_parse_hex(path.subrange(1, path.len() as int), spec_endpoint_bound(w))
        is None {
        Option::Some(AddrError::InvalidEndpoint)
    } else {
        Option::None
    }
}

/// The identifier a passing path names.
pub open spec fn spec_addr_endpoint(path: Seq<u8>, w: EndpointWidth) -> u64
    recommends
        spec_parse_hex(path.subrange(1, path.len() as int), spec_endpoint_bound(w)) is Some,
{
    spec_parse_hex(path.subrange(1, path.len() as int), spec_endpoint_bound(w))->Some_0
}

/// Whether `s` spells `kymux`.
fn is_kymux_scheme(s: &Vec<u8>) -> (r: bool)
    ensures
        r == (s@ == spec_kymux_scheme()),
{
    let r: bool = s.len() == 5 && s[0] == 107 && s[1] == 121 && s[2] == 109 && s[3] == 117 && s[4]
        == 120;
    proof {
        if r {
            assert(s@ =~= spec_kymux_scheme());
        } else {
            if s@ == spec_kymux_scheme() {
                assert(s@.len() == 5);
                assert(s@[0] == 107 && s@[1] == 121 && s@[2] == 109 && s@[3] == 117 && s@[4]
                    == 120);
            }
        }
    }
    r
}

/// Apply the address checks to URL components already split apart.
pub fn addr_from_parts(parts: UrlParts, width: EndpointWidth) -> (r: Result<KymuxAddr, AddrError>)
    ensures
        ({
            let err = spec_addr_error(
                parts.scheme@,
                opt_bytes(parts.host),
                parts.port,
                parts.path@,
                width,
            );
            match err {
                Option::Some(e) => r == Err::<KymuxAddr, AddrError>(e),
                Option::None => (r matches Ok(a) && a.host@ == opt_bytes(parts.host)->Some_0
                    && a.port == parts.port->Some_0 && a.endpoint_id == spec_addr_endpoint(
                    parts.path@,
                    width,
                ) && a.width == width),
            }
        }),
{
    if !is_kymux_scheme(&parts.scheme) {
        return Err(AddrError::WrongScheme);
    }
    let host: Vec<u8> = match parts.host {
        Option::Some(h) => h,
        Option::None => {
            return Err(AddrError::MissingHost);
        },
    };
    let port: u16 = match parts.port {
        Option::Some(p) => p,
        Option::None => {
            return Err(AddrError::MissingPort);
        },
    };
    if parts.path.len() < 2 {
        return Err(AddrError::EmptyPath);
    }
    let mut digits: Vec<u8> = Vec::new();
    let mut i: usize = 1;
    let n: usize = parts.path.len();
    while i < n
        invariant
            1 <= i <= n,
            n == parts.path@.len(),
            digits@ == parts.path@.subrange(1, i as int),
        decreases n - i,
    {
        let c: u8 = parts.path[i];
        digits.push(c);
        proof {
            assert(parts.path@.subrange(1, i as int).push(c) =~= parts.path@.subrange(
                1,
                i as int + 1,
            ));
        }
        i = i + 1;
    }
    let bound: u64 = endpoint_bound(width);
    let endpoint_id: u64 = match parse_hex_bounded(&digits, bound) {
        Option::Some(v) => v,
        Option::None => {
            return Err(AddrError::InvalidEndpoint);
        },
    };
    Ok(KymuxAddr { host, port, endpoint_id, width })
}

/// The components a URL string splits into, when it parses at all: scheme,
/// host, port, path. A function of the string alone.
pub uninterp spec fn url_parts_of(s: Seq<char>) -> Option<
    (Seq<u8>, Option<Seq<u8>>, Option<u16>, Seq<u8>),
>;

/// Relies on `url::Url::parse` and the accessors `Url::scheme`,
/// `Url::host_str`, `Url::port` and `Url::path`: splitting a URL string
/// into its components is a function of the string alone, and a string
/// that does not parse yields nothing.
#[verifier::external_body]
fn split_url(s: &str) -> (r: Option<UrlParts>)
    ensures
        r is Some <==> url_parts_of(s@) is Some,
        r matches Some(p) ==> (url_parts_of(s@) matches Some(q) && p.scheme@ == q.0 && opt_bytes(
            p.host,
        ) == q.1 && p.port == q.2 && p.path@ == q.3),
{
    match url::Url::parse(s) {
        Ok(u) => Some(
            UrlParts {
                scheme: u.scheme().as_bytes().to_vec(),
                host: u.host_str().map(|h| h.as_bytes().to_vec()),
                port: u.port(),
                path: u.path().as_bytes().to_vec(),
            },
        ),
        Err(_) => None,
    }
}

/// Parse a destination URL: `kymux://host:port/hex-endpoint-id`. The string
/// is split by the URL parser; every check on the components is verified,
/// and each rejection names the first check that failed.
pub fn parse_kymux_url(s: &str, width: EndpointWidth) -> (r: Result<KymuxAddr, AddrError>)
    ensures
        url_parts_of(s@) is None ==> r == Err::<KymuxAddr, AddrError>(AddrError::MalformedUrl),
        url_parts_of(s@) matches Some(q) ==> (match spec_addr_error(q.0, q.1, q.2, q.3, width) {
            Option::Some(e) => r == Err::<KymuxAddr, AddrError>(e),
            Option::None => (r matches Ok(a) && a.host@ == q.1->Some_0 && a.port == q.2->Some_0
                && a.endpoint_id == spec_addr_endpoint(q.3, width) && a.width == width),
        }),
{
    match split_url(s) {
        Option::None => Err(AddrError::MalformedUrl),
        Option::Some(p) => addr_from_parts(p, width),
    }
}

} // verus!
