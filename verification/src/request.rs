use vstd::prelude::*;

use crate::wire::SOCKADDR_STORAGE_LEN;

verus! {

// Kernel submission opcodes. They are part of the completion-queue ABI and
// must be reproduced bit-exact.
/// Vectored read.
pub const OP_READV: u8 = 1;

/// Vectored write.
pub const OP_WRITEV: u8 = 2;

/// Address-carrying message send.
pub const OP_SENDMSG: u8 = 9;

/// Address-carrying message receive.
pub const OP_RECVMSG: u8 = 10;

/// Accept a connection on a listener.
pub const OP_ACCEPT: u8 = 13;

/// Connect a socket to a peer.
pub const OP_CONNECT: u8 = 16;

/// Plain send.
pub const OP_SEND: u8 = 26;

/// Plain receive.
pub const OP_RECV: u8 = 27;

/// The receive flag that turns a receive into a peek: the kernel copies
/// queued data out without consuming it.
pub const MSG_PEEK_FLAG: u32 = 2;

/// Ephemeral description of one kernel operation, alive from enqueue until
/// its single completion is observed. Caller-owned buffers are described by
/// their length alone; the buffer itself, like any address storage, must
/// stay valid and unmoved until the completion arrives, for the kernel
/// writes into it asynchronously.
pub struct SubmissionRequest {
    pub opcode: u8,
    pub fd: i32,
    pub buf_len: usize,
    pub offset: u64,
    pub flags: u32,
    /// Encoded destination address, for a connect request.
    pub addr: Option<Vec<u8>>,
}

/// Message envelope for address-carrying transfers: one I/O vector plus an
/// address buffer and its significant length, laid out to match the
/// kernel's message-header shape. For a send, `name` holds the encoded
/// destination; for a receive, zeroed storage the kernel fills with the
/// source address.
pub struct MsgEnvelope {
    pub name: Vec<u8>,
    pub name_len: u32,
    pub iov_len: usize,
}

/// Zero-initialized address storage sized for the largest possible socket
/// address, handed to accept and message-receive requests for the kernel
/// to fill.
pub fn fresh_address_storage() -> (r: Vec<u8>)
    ensures
        r@.len() == SOCKADDR_STORAGE_LEN as int,
        forall|i: int| 0 <= i < r@.len() ==> r@[i] == 0u8,
{
    let mut v: Vec<u8> = Vec::new();
    while v.len() < SOCKADDR_STORAGE_LEN
        invariant
            forall|i: int| 0 <= i < v@.len() ==> v@[i] == 0u8,
            v@.len() <= SOCKADDR_STORAGE_LEN as int,
        decreases SOCKADDR_STORAGE_LEN as int - v@.len(),
    {
        v.push(0u8);
    }
    v
}

} // verus!
