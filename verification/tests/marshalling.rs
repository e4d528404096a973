use uring_io::addr::{AddrFamily, SockAddr};
use uring_io::errors::OpError;
use uring_io::wire::{decode_sockaddr, encode_sockaddr};

fn v4(ip: [u8; 4], port: u16) -> SockAddr {
    SockAddr::V4 { ip, port }
}

#[test]
fn encode_v4_exact_bytes() {
    let a = v4([127, 0, 0, 1], 8080);
    let b = encode_sockaddr(&a);
    assert_eq!(b, vec![2, 0, 31, 144, 127, 0, 0, 1, 0, 0, 0, 0, 0, 0, 0, 0]);
}

#[test]
fn encode_v6_exact_bytes() {
    let mut ip = [0u8; 16];
    ip[15] = 1;
    let a = SockAddr::V6 { ip, port: 443, flowinfo: 0x01020304, scope_id: 7 };
    let b = encode_sockaddr(&a);
    let mut expect = vec![10, 0, 1, 187, 4, 3, 2, 1];
    expect.extend_from_slice(&ip);
    expect.extend_from_slice(&[7, 0, 0, 0]);
    assert_eq!(b, expect);
}

#[test]
fn encode_unix_named_exact_bytes() {
    let a = SockAddr::UnixNamed { path: b"/tmp/sock".to_vec() };
    let b = encode_sockaddr(&a);
    let mut expect = vec![1u8, 0];
    expect.extend_from_slice(b"/tmp/sock");
    expect.push(0);
    assert_eq!(b, expect);
}

#[test]
fn encode_unix_abstract_exact_bytes() {
    let a = SockAddr::UnixAbstract { name: b"ring.0".to_vec() };
    let b = encode_sockaddr(&a);
    let mut expect = vec![1u8, 0, 0];
    expect.extend_from_slice(b"ring.0");
    assert_eq!(b, expect);
}

#[test]
fn encode_unix_unnamed_exact_bytes() {
    let b = encode_sockaddr(&SockAddr::UnixUnnamed);
    assert_eq!(b, vec![1u8, 0]);
}

#[test]
fn round_trip_v4() {
    let a = v4([192, 168, 7, 9], 65535);
    let b = encode_sockaddr(&a);
    let len = b.len();
    let back = decode_sockaddr(&b, len).unwrap();
    assert!(back.same_address(&a));
    assert_eq!(back.family(), AddrFamily::Inet);
}

#[test]
fn round_trip_v6() {
    let a = SockAddr::V6 {
        ip: [0xfe, 0x80, 0, 0, 0, 0, 0, 0, 1, 2, 3, 4, 5, 6, 7, 8],
        port: 1,
        flowinfo: 0xffffffff,
        scope_id: 0x80000001,
    };
    let b = encode_sockaddr(&a);
    let len = b.len();
    let back = decode_sockaddr(&b, len).unwrap();
    assert!(back.same_address(&a));
    assert_eq!(back.family(), AddrFamily::Inet6);
}

#[test]
fn round_trip_unix_named() {
    let a = SockAddr::UnixNamed { path: b"/run/io.sock".to_vec() };
    let b = encode_sockaddr(&a);
    let len = b.len();
    let back = decode_sockaddr(&b, len).unwrap();
    assert!(back.same_address(&a));
    assert_eq!(back.family(), AddrFamily::Unix);
}

#[test]
fn round_trip_unix_abstract_stays_abstract() {
    let a = SockAddr::UnixAbstract { name: b"engine-abstract".to_vec() };
    let b = encode_sockaddr(&a);
    let len = b.len();
    let back = decode_sockaddr(&b, len).unwrap();
    assert!(matches!(back, SockAddr::UnixAbstract { .. }));
    assert!(back.same_address(&a));
}

#[test]
fn round_trip_unix_abstract_empty_name() {
    let a = SockAddr::UnixAbstract { name: Vec::new() };
    let b = encode_sockaddr(&a);
    let len = b.len();
    let back = decode_sockaddr(&b, len).unwrap();
    assert!(matches!(back, SockAddr::UnixAbstract { .. }));
    assert!(back.same_address(&a));
}

#[test]
fn round_trip_unix_unnamed() {
    let b = encode_sockaddr(&SockAddr::UnixUnnamed);
    let len = b.len();
    let back = decode_sockaddr(&b, len).unwrap();
    assert!(matches!(back, SockAddr::UnixUnnamed));
}

#[test]
fn decode_rejects_short_buffers() {
    assert!(matches!(decode_sockaddr(&vec![], 0), Err(OpError::Conversion)));
    assert!(matches!(decode_sockaddr(&vec![2u8], 1), Err(OpError::Conversion)));
    // An IPv4 family word with fewer bytes than its address needs.
    let b = vec![2u8, 0, 31, 144, 127, 0, 0, 1];
    let len = b.len();
    assert!(matches!(decode_sockaddr(&b, len), Err(OpError::Conversion)));
    // An IPv6 family word with only an IPv4-sized body.
    let mut b6 = vec![10u8, 0];
    b6.extend_from_slice(&[0u8; 14]);
    let len6 = b6.len();
    assert!(matches!(decode_sockaddr(&b6, len6), Err(OpError::Conversion)));
}

#[test]
fn decode_ignores_bytes_past_the_reported_length() {
    let a = v4([10, 1, 2, 3], 9999);
    let mut b = encode_sockaddr(&a);
    let len = b.len();
    b.resize(128, 0xAB);
    let back = decode_sockaddr(&b, len).unwrap();
    assert!(back.same_address(&a));
}

#[test]
fn decode_rejects_unknown_family() {
    let b = vec![99u8, 0, 0, 0, 0, 0, 0, 0, 0, 0, 0, 0, 0, 0, 0, 0];
    let len = b.len();
    assert!(matches!(decode_sockaddr(&b, len), Err(OpError::Conversion)));
}

#[test]
fn decode_unix_unterminated_path_within_storage() {
    // No terminator before the reported length: the whole tail is the path.
    let b = vec![1u8, 0, b'a', b'b', b'c', b'd'];
    let back = decode_sockaddr(&b, 6).unwrap();
    assert!(back.same_address(&SockAddr::UnixNamed { path: b"abcd".to_vec() }));
}

#[test]
fn decode_unix_path_stops_at_terminator() {
    let b = vec![1u8, 0, b'a', b'b', 0, b'z'];
    let back = decode_sockaddr(&b, 6).unwrap();
    assert!(back.same_address(&SockAddr::UnixNamed { path: b"ab".to_vec() }));
}

#[test]
fn decode_unix_overlong_name_rejected() {
    // A full 108-byte sun_path with no terminator cannot be held.
    let mut b = vec![1u8, 0];
    b.extend_from_slice(&[b'x'; 108]);
    let len = b.len();
    assert!(matches!(decode_sockaddr(&b, len), Err(OpError::Conversion)));
}

#[test]
fn unix_from_path_builds_named_address() {
    let ok = SockAddr::unix_from_path(b"/tmp/a".to_vec()).unwrap();
    assert!(ok.same_address(&SockAddr::UnixNamed { path: b"/tmp/a".to_vec() }));
}

#[test]
fn unix_from_path_rejects_empty_interior_zero_and_overlong() {
    assert!(SockAddr::unix_from_path(Vec::new()).is_err());
    assert!(SockAddr::unix_from_path(b"/tmp\0/a".to_vec()).is_err());
    assert!(SockAddr::unix_from_path(vec![b'p'; 108]).is_err());
    assert!(SockAddr::unix_from_path(vec![b'p'; 107]).is_ok());
}

#[test]
fn unix_abstract_rejects_overlong() {
    assert!(SockAddr::unix_abstract(vec![0u8; 107]).is_ok());
    assert!(SockAddr::unix_abstract(vec![0u8; 108]).is_err());
}

#[test]
fn unspecified_wildcards() {
    let a4 = SockAddr::unspecified(AddrFamily::Inet);
    assert!(a4.same_address(&v4([0, 0, 0, 0], 0)));
    let a6 = SockAddr::unspecified(AddrFamily::Inet6);
    assert!(a6.same_address(&SockAddr::V6 { ip: [0u8; 16], port: 0, flowinfo: 0, scope_id: 0 }));
}

#[test]
fn same_address_distinguishes() {
    assert!(!v4([1, 2, 3, 4], 80).same_address(&v4([1, 2, 3, 5], 80)));
    assert!(!v4([1, 2, 3, 4], 80).same_address(&v4([1, 2, 3, 4], 81)));
    assert!(!v4([0, 0, 0, 0], 0).same_address(&SockAddr::UnixUnnamed));
    assert!(!SockAddr::UnixNamed { path: b"a".to_vec() }.same_address(&SockAddr::UnixAbstract {
        name: b"a".to_vec(),
    }));
}
