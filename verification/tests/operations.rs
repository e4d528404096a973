use uring_io::addr::SockAddr;
use uring_io::errors::{decode_completion, decode_completion_fd, OpError};
use uring_io::processor::Processor;
use uring_io::request::{
    fresh_address_storage, MSG_PEEK_FLAG, OP_ACCEPT, OP_CONNECT, OP_READV, OP_RECV, OP_RECVMSG,
    OP_SEND, OP_SENDMSG, OP_WRITEV,
};
use uring_io::slots::InFlightArena;
use uring_io::wire::encode_sockaddr;

#[test]
fn completion_codes_split_on_sign() {
    assert_eq!(decode_completion(5), Ok(5));
    assert_eq!(decode_completion(0), Ok(0));
    assert_eq!(decode_completion(-11), Err(OpError::Kernel { errno: 11 }));
    assert_eq!(decode_completion_fd(7), Ok(7));
    assert_eq!(decode_completion_fd(-9), Err(OpError::Kernel { errno: 9 }));
    assert_eq!(decode_completion(i32::MIN), Err(OpError::Kernel { errno: 2147483648 }));
}

#[test]
fn opcodes_are_bit_exact() {
    assert_eq!(OP_READV, 1);
    assert_eq!(OP_WRITEV, 2);
    assert_eq!(OP_SENDMSG, 9);
    assert_eq!(OP_RECVMSG, 10);
    assert_eq!(OP_ACCEPT, 13);
    assert_eq!(OP_CONNECT, 16);
    assert_eq!(OP_SEND, 26);
    assert_eq!(OP_RECV, 27);
    assert_eq!(MSG_PEEK_FLAG, 2);
}

#[test]
fn file_requests_are_vectored_at_offset_zero() {
    let r = Processor::read_file_request(3, 4096);
    assert_eq!((r.opcode, r.fd, r.buf_len, r.offset, r.flags), (OP_READV, 3, 4096, 0, 0));
    assert!(r.addr.is_none());
    let w = Processor::write_file_request(4, 10);
    assert_eq!((w.opcode, w.fd, w.buf_len, w.offset, w.flags), (OP_WRITEV, 4, 10, 0, 0));
}

#[test]
fn send_request_has_no_flags() {
    let r = Processor::send_request(5, 128);
    assert_eq!((r.opcode, r.fd, r.buf_len, r.flags), (OP_SEND, 5, 128, 0));
}

#[test]
fn peek_differs_from_recv_only_in_flag() {
    let recv = Processor::recv_request(6, 64, false);
    let peek = Processor::recv_request(6, 64, true);
    assert_eq!(recv.flags, 0);
    assert_eq!(peek.flags, MSG_PEEK_FLAG);
    assert_eq!(
        (recv.opcode, recv.fd, recv.buf_len, recv.offset),
        (peek.opcode, peek.fd, peek.buf_len, peek.offset),
    );
}

#[test]
fn connect_request_carries_encoded_peer() {
    let addr = SockAddr::V4 { ip: [127, 0, 0, 1], port: 80 };
    let r = Processor::connect_request(9, &addr);
    assert_eq!(r.opcode, OP_CONNECT);
    assert_eq!(r.addr.as_deref(), Some(encode_sockaddr(&addr).as_slice()));
}

#[test]
fn accept_request_hands_zeroed_storage() {
    let (r, storage) = Processor::accept_request(11);
    assert_eq!((r.opcode, r.fd), (OP_ACCEPT, 11));
    assert_eq!(storage.len(), 128);
    assert!(storage.iter().all(|b| *b == 0));
    let fresh = fresh_address_storage();
    assert_eq!(fresh, storage);
}

#[test]
fn send_to_request_builds_envelope() {
    let addr = SockAddr::UnixNamed { path: b"/tmp/peer".to_vec() };
    let (r, env) = Processor::send_to_request(12, 33, &addr);
    assert_eq!((r.opcode, r.fd, r.buf_len, r.flags), (OP_SENDMSG, 12, 33, 0));
    assert_eq!(env.name, encode_sockaddr(&addr));
    assert_eq!(env.name_len as usize, env.name.len());
    assert_eq!(env.iov_len, 33);
}

#[test]
fn recv_from_request_builds_envelope() {
    let (r, env) = Processor::recv_from_request(13, 9, false);
    assert_eq!((r.opcode, r.flags), (OP_RECVMSG, 0));
    let (p, penv) = Processor::recv_from_request(13, 9, true);
    assert_eq!((p.opcode, p.flags), (OP_RECVMSG, MSG_PEEK_FLAG));
    assert_eq!(env.name.len(), 128);
    assert!(env.name.iter().all(|b| *b == 0));
    assert_eq!(env.name_len, 128);
    assert_eq!(env.iov_len, 9);
    assert_eq!(penv.iov_len, 9);
}

#[test]
fn complete_accept_yields_descriptor_and_peer() {
    let peer = SockAddr::V4 { ip: [127, 0, 0, 1], port: 54321 };
    let mut storage = encode_sockaddr(&peer);
    let name_len = storage.len();
    storage.resize(128, 0);
    let (fd, got) = Processor::complete_accept(9, &storage, name_len).unwrap();
    assert_eq!(fd, 9);
    assert!(got.same_address(&peer));
}

#[test]
fn complete_accept_surfaces_kernel_error() {
    let storage = fresh_address_storage();
    let r = Processor::complete_accept(-24, &storage, 16);
    assert!(matches!(r, Err(OpError::Kernel { errno: 24 })));
}

#[test]
fn complete_accept_rejects_malformed_storage() {
    let mut storage = fresh_address_storage();
    storage[0] = 77;
    let r = Processor::complete_accept(3, &storage, 16);
    assert!(matches!(r, Err(OpError::Conversion)));
}

#[test]
fn complete_recv_from_round_trips_source_address() {
    let from = SockAddr::UnixAbstract { name: b"dgram-peer".to_vec() };
    let mut storage = encode_sockaddr(&from);
    let name_len = storage.len();
    storage.resize(128, 0);
    let (n, got) = Processor::complete_recv_from(17, &storage, name_len).unwrap();
    assert_eq!(n, 17);
    assert!(matches!(got, SockAddr::UnixAbstract { .. }));
    assert!(got.same_address(&from));
}

#[test]
fn accept_then_recv_scenario() {
    // A listener accepts: the completion carries the stream's descriptor
    // and the kernel-filled peer storage equals the client's local address.
    let client_local = SockAddr::V4 { ip: [127, 0, 0, 1], port: 49152 };
    let (req, mut storage) = Processor::accept_request(30);
    assert_eq!(req.opcode, OP_ACCEPT);
    let peer_bytes = encode_sockaddr(&client_local);
    storage[..peer_bytes.len()].copy_from_slice(&peer_bytes);
    let (stream_fd, peer) = Processor::complete_accept(31, &storage, peer_bytes.len()).unwrap();
    assert_eq!(stream_fd, 31);
    assert!(peer.same_address(&client_local));
    // The server then receives exactly the four queued bytes.
    let recv = Processor::recv_request(stream_fd, 4, false);
    assert_eq!((recv.opcode, recv.fd, recv.buf_len), (OP_RECV, 31, 4));
    assert_eq!(decode_completion(4), Ok(4));
}

#[test]
fn arena_releases_each_completion_exactly_once() {
    let mut arena = InFlightArena::new();
    let id0 = arena.submit(Processor::read_file_request(3, 16));
    let id1 = arena.submit(Processor::send_request(4, 8));
    assert_eq!((id0, id1), (0, 1));
    let first = arena.observe(id0).unwrap();
    assert_eq!(first.opcode, OP_READV);
    // The slot was released: a second observation yields nothing.
    assert!(arena.observe(id0).is_none());
    // An id never submitted yields nothing either.
    assert!(arena.observe(7).is_none());
    let second = arena.observe(id1).unwrap();
    assert_eq!(second.opcode, OP_SEND);
    assert!(arena.observe(id1).is_none());
}
