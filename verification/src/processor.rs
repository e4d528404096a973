use vstd::prelude::*;

use crate::addr::{AddrFamily, AddrModel, SockAddr};
use crate::errors::{decode_completion, decode_completion_fd, OpError};
use crate::request::{
    MsgEnvelope, SubmissionRequest, MSG_PEEK_FLAG, OP_ACCEPT, OP_CONNECT, OP_READV, OP_RECV,
    OP_RECVMSG, OP_SEND, OP_SENDMSG, OP_WRITEV,
};
use crate::request::fresh_address_storage;
use crate::wire::{
    decode_model, decode_sockaddr, encode_model, encode_sockaddr, lemma_encode_len,
    SOCKADDR_STORAGE_LEN,
};

verus! {

/// The submission built for an operation that carries no address: opcode,
/// descriptor, buffer length and flags, at offset zero.
pub open spec fn plain_request(opcode: u8, fd: i32, buf_len: usize, flags: u32) -> SubmissionRequest {
    SubmissionRequest { opcode, fd, buf_len, offset: 0u64, flags: flags, addr: None }
}

/// Which transport a socket is created with.
#[derive(Clone, Copy, Debug, PartialEq, Eq, Structural)]
pub enum Transport {
    Stream,
    Datagram,
}

/// The decisions behind creating and connecting one socket: what family
/// and transport to open, whether to make it non-blocking, whether it must
/// first be bound to its family's wildcard address, and whether the
/// connect itself is submitted to the completion engine or performed as
/// the synchronous fast path.
pub struct SocketPlan {
    pub family: AddrFamily,
    pub transport: Transport,
    pub nonblocking: bool,
    pub bind_wildcard: bool,
    pub through_engine: bool,
}

/// Stateless operation processor: the pure half of every conventional
/// operation of the surrounding runtime. Each call builds the kernel
/// submission description for the effectful shell to enqueue, and decodes
/// the single completion the kernel delivers for it.
pub struct Processor;

impl Processor {
    /// A plain file read: one vectored transfer at offset zero; a short
    /// read is a legal outcome.
    pub fn read_file_request(fd: i32, buf_len: usize) -> (r: SubmissionRequest)
        ensures
            r == plain_request(OP_READV, fd, buf_len, 0u32),
    {
        SubmissionRequest { opcode: OP_READV, fd, buf_len, offset: 0, flags: 0, addr: None }
    }

    /// A plain file write: one vectored transfer at offset zero; a short
    /// write is a legal outcome.
    pub fn write_file_request(fd: i32, buf_len: usize) -> (r: SubmissionRequest)
        ensures
            r == plain_request(OP_WRITEV, fd, buf_len, 0u32),
    {
        SubmissionRequest { opcode: OP_WRITEV, fd, buf_len, offset: 0, flags: 0, addr: None }
    }

    /// A connectionless-style send with no flags.
    pub fn send_request(fd: i32, buf_len: usize) -> (r: SubmissionRequest)
        ensures
            r == plain_request(OP_SEND, fd, buf_len, 0u32),
    {
        SubmissionRequest { opcode: OP_SEND, fd, buf_len, offset: 0, flags: 0, addr: None }
    }

    /// Receive and peek share this one primitive, parameterized by a flag:
    /// none to consume, the peek flag to leave queued data in place.
    pub fn recv_request(fd: i32, buf_len: usize, peek: bool) -> (r: SubmissionRequest)
        ensures
            r == plain_request(
                OP_RECV,
                fd,
                buf_len,
                if peek {
                    MSG_PEEK_FLAG
                } else {
                    0u32
                },
            ),
    {
        let flags: u32 = if peek {
            MSG_PEEK_FLAG
        } else {
            0
        };
        SubmissionRequest { opcode: OP_RECV, fd, buf_len, offset: 0, flags, addr: None }
    }

    /// An asynchronous connect: carries the encoded peer address for the
    /// kernel to read while the request is in flight.
    pub fn connect_request(fd: i32, addr: &SockAddr) -> (r: SubmissionRequest)
        ensures
            r.opcode == OP_CONNECT,
            r.fd == fd,
            r.buf_len == 0,
            r.offset == 0,
            r.flags == 0,
            r.addr matches Some(bytes) && bytes@ == encode_model(addr@),
    {
        SubmissionRequest {
            opcode: OP_CONNECT,
            fd,
            buf_len: 0,
            offset: 0,
            flags: 0,
            addr: Some(encode_sockaddr(addr)),
        }
    }

    /// An accept: references the listener and zero-initialized storage
    /// sized for the largest possible address, which the kernel fills with
    /// the peer address by completion time.
    pub fn accept_request(fd: i32) -> (r: (SubmissionRequest, Vec<u8>))
        ensures
            r.0 == plain_request(OP_ACCEPT, fd, SOCKADDR_STORAGE_LEN, 0u32),
            r.1@.len() == SOCKADDR_STORAGE_LEN as int,
            forall|i: int| 0 <= i < r.1@.len() ==> r.1@[i] == 0u8,
    {
        let storage = fresh_address_storage();
        (
            SubmissionRequest {
                opcode: OP_ACCEPT,
                fd,
                buf_len: SOCKADDR_STORAGE_LEN,
                offset: 0,
                flags: 0,
                addr: None,
            },
            storage,
        )
    }

    /// An address-carrying send: the message envelope pairs the single I/O
    /// vector with the encoded destination and its exact length.
    pub fn send_to_request(fd: i32, buf_len: usize, addr: &SockAddr) -> (r: (
        SubmissionRequest,
        MsgEnvelope,
    ))
        requires
            addr.wf(),
        ensures
            r.0 == plain_request(OP_SENDMSG, fd, buf_len, 0u32),
            r.1.name@ == encode_model(addr@),
            r.1.name_len as int == encode_model(addr@).len(),
            r.1.iov_len == buf_len,
    {
        let name = encode_sockaddr(addr);
        proof {
            lemma_encode_len(addr@);
        }
        let name_len = name.len() as u32;
        (
            SubmissionRequest {
                opcode: OP_SENDMSG,
                fd,
                buf_len,
                offset: 0,
                flags: 0,
                addr: None,
            },
            MsgEnvelope { name, name_len, iov_len: buf_len },
        )
    }

    /// An address-carrying receive, or its peek variant: the envelope
    /// pairs the single I/O vector with zeroed source-address storage for
    /// the kernel to fill.
    pub fn recv_from_request(fd: i32, buf_len: usize, peek: bool) -> (r: (
        SubmissionRequest,
        MsgEnvelope,
    ))
        ensures
            r.0 == plain_request(
                OP_RECVMSG,
                fd,
                buf_len,
                if peek {
                    MSG_PEEK_FLAG
                } else {
                    0u32
                },
            ),
            r.1.name@.len() == SOCKADDR_STORAGE_LEN as int,
            forall|i: int| 0 <= i < r.1.name@.len() ==> r.1.name@[i] == 0u8,
            r.1.name_len == SOCKADDR_STORAGE_LEN as u32,
            r.1.iov_len == buf_len,
    {
        let flags: u32 = if peek {
            MSG_PEEK_FLAG
        } else {
            0
        };
        let name = fresh_address_storage();
        let name_len = name.len() as u32;
        (
            SubmissionRequest { opcode: OP_RECVMSG, fd, buf_len, offset: 0, flags, addr: None },
            MsgEnvelope { name, name_len, iov_len: buf_len },
        )
    }

    /// Interprets an accept completion: a negative code is the kernel
    /// error; a non-negative code is the new connection's descriptor,
    /// paired with the peer address extracted from the kernel-filled
    /// storage of `name_len` significant bytes.
    pub fn complete_accept(code: i32, storage: &Vec<u8>, name_len: usize) -> (r: Result<
        (i32, SockAddr),
        OpError,
    >)
        requires
            name_len <= storage@.len(),
        ensures
            code < 0 ==> (r matches Err(e) && e == (OpError::Kernel {
                errno: (-(code as i64)) as i64,
            })),
            code >= 0 ==> match r {
                Ok(p) => p.0 == code && decode_model(storage@, name_len as int)
                    == Ok::<AddrModel, OpError>(p.1@) && p.1.wf(),
                Err(e) => decode_model(storage@, name_len as int) == Err::<AddrModel, OpError>(e),
            },
    {
        match decode_completion_fd(code) {
            Err(e) => Err(e),
            Ok(fd) => match decode_sockaddr(storage, name_len) {
                Ok(a) => Ok((fd, a)),
                Err(e) => Err(e),
            },
        }
    }

    /// Interprets an address-carrying receive completion: a negative code
    /// is the kernel error; a non-negative code is the byte count, paired
    /// with the source address extracted from the kernel-filled storage.
    pub fn complete_recv_from(code: i32, storage: &Vec<u8>, name_len: usize) -> (r: Result<
        (usize, SockAddr),
        OpError,
    >)
        requires
            name_len <= storage@.len(),
        ensures
            code < 0 ==> (r matches Err(e) && e == (OpError::Kernel {
                errno: (-(code as i64)) as i64,
            })),
            code >= 0 ==> match r {
                Ok(p) => p.0 == code as usize && decode_model(storage@, name_len as int)
                    == Ok::<AddrModel, OpError>(p.1@) && p.1.wf(),
                Err(e) => decode_model(storage@, name_len as int) == Err::<AddrModel, OpError>(e),
            },
    {
        match decode_completion(code) {
            Err(e) => Err(e),
            Ok(n) => match decode_sockaddr(storage, name_len) {
                Ok(a) => Ok((n, a)),
                Err(e) => Err(e),
            },
        }
    }

    /// The socket for a stream connect to an IP peer: matching family,
    /// stream transport, non-blocking, no prior bind; the connect goes
    /// through the completion engine.
    pub fn tcp_connect_plan(addr: &SockAddr) -> (p: SocketPlan)
        requires
            addr@.family() != AddrFamily::Unix,
        ensures
            p.family == addr@.family(),
            p.transport == Transport::Stream,
            p.nonblocking,
            !p.bind_wildcard,
            p.through_engine,
    {
        SocketPlan {
            family: addr.family(),
            transport: Transport::Stream,
            nonblocking: true,
            bind_wildcard: false,
            through_engine: true,
        }
    }

    /// The socket for a datagram connect: matching family, datagram
    /// transport, non-blocking, first bound to the family's wildcard
    /// address (a datagram socket needs the explicit bind before a default
    /// peer is set); the connect is the synchronous fast path, not routed
    /// through the completion engine, for it performs no blocking I/O.
    pub fn udp_connect_plan(addr: &SockAddr) -> (p: SocketPlan)
        requires
            addr@.family() != AddrFamily::Unix,
        ensures
            p.family == addr@.family(),
            p.transport == Transport::Datagram,
            p.nonblocking,
            p.bind_wildcard,
            !p.through_engine,
    {
        SocketPlan {
            family: addr.family(),
            transport: Transport::Datagram,
            nonblocking: true,
            bind_wildcard: true,
            through_engine: false,
        }
    }

    /// The socket for a stream connect to a Unix peer: Unix family,
    /// stream transport, non-blocking, no prior bind; the connect goes
    /// through the completion engine.
    pub fn unix_connect_plan() -> (p: SocketPlan)
        ensures
            p.family == AddrFamily::Unix,
            p.transport == Transport::Stream,
            p.nonblocking,
            !p.bind_wildcard,
            p.through_engine,
    {
        SocketPlan {
            family: AddrFamily::Unix,
            transport: Transport::Stream,
            nonblocking: true,
            bind_wildcard: false,
            through_engine: true,
        }
    }
}

/// Law: a peek submits the very receive request — same opcode, descriptor,
/// buffer length and offset — with only the peek flag set in place of
/// none. Leaving queued data unconsumed, so that a later receive returns
/// the same leading bytes, is the kernel semantics that flag selects; this
/// layer preserves it end-to-end by changing nothing else.
pub proof fn lemma_peek_is_flagged_recv(fd: i32, buf_len: usize)
    ensures
        ({
            let p = plain_request(OP_RECV, fd, buf_len, MSG_PEEK_FLAG);
            let r = plain_request(OP_RECV, fd, buf_len, 0u32);
            p.opcode == r.opcode && p.fd == r.fd && p.buf_len == r.buf_len && p.offset == r.offset
                && p.addr == r.addr && p.flags == MSG_PEEK_FLAG && r.flags == 0
        }),
{
}

} // verus!
