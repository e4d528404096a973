use vstd::prelude::*;

use vstd::arithmetic::div_mod::{
    lemma_div_denominator, lemma_fundamental_div_mod, lemma_mod_bound, lemma_small_mod,
};

use crate::addr::{AddrModel, SockAddr, UNIX_NAME_MAX};
use crate::errors::OpError;

verus! {

/// Address family numbers of the kernel ABI.
pub const AF_UNIX: u16 = 1;

pub const AF_INET: u16 = 2;

pub const AF_INET6: u16 = 10;

/// Size of the kernel's generic address storage, large enough for any
/// socket address; accept and message-receive operations hand the kernel a
/// zeroed buffer of this size to fill.
pub const SOCKADDR_STORAGE_LEN: usize = 128;

/// Encoded size of an IPv4 socket address.
pub const SOCKADDR_V4_LEN: usize = 16;

/// Encoded size of an IPv6 socket address.
pub const SOCKADDR_V6_LEN: usize = 28;

// The kernel lays a socket address out as a leading family word in host
// byte order (little-endian here), then family-specific fields: ports in
// network byte order, IP addresses as their bytes in network order, and the
// IPv6 flow and scope words in host byte order, as the platform socket
// structures hold them.

pub open spec fn be16(x: u16) -> Seq<u8> {
    seq![(x / 256) as u8, (x % 256) as u8]
}

pub open spec fn le16(x: u16) -> Seq<u8> {
    seq![(x % 256) as u8, (x / 256) as u8]
}

pub open spec fn le32(x: u32) -> Seq<u8> {
    seq![
        (x % 256) as u8,
        ((x / 256) % 256) as u8,
        ((x / 65536) % 256) as u8,
        ((x / 16777216) % 256) as u8,
    ]
}

pub open spec fn u16_be_at(b: Seq<u8>, i: int) -> int {
    256 * b[i] + b[i + 1]
}

pub open spec fn u16_le_at(b: Seq<u8>, i: int) -> int {
    b[i] + 256 * b[i + 1]
}

pub open spec fn u32_le_at(b: Seq<u8>, i: int) -> int {
    b[i] + 256 * b[i + 1] + 65536 * b[i + 2] + 16777216 * b[i + 3]
}

pub open spec fn zeros(n: int) -> Seq<u8> {
    Seq::new(n as nat, |i: int| 0u8)
}

/// The exact kernel byte layout of a canonical address.
pub open spec fn encode_model(m: AddrModel) -> Seq<u8> {
    match m {
        AddrModel::V4 { ip, port } => le16(AF_INET) + be16(port) + ip + zeros(8),
        AddrModel::V6 { ip, port, flowinfo, scope_id } => le16(AF_INET6) + be16(port) + le32(
            flowinfo,
        ) + ip + le32(scope_id),
        AddrModel::UnixNamed { path } => le16(AF_UNIX) + path + seq![0u8],
        AddrModel::UnixAbstract { name } => le16(AF_UNIX) + seq![0u8] + name,
        AddrModel::UnixUnnamed => le16(AF_UNIX),
    }
}

/// First index in `[i, len)` holding a zero byte, or `len` if none does.
pub open spec fn scan_zero(b: Seq<u8>, i: int, len: int) -> int
    recommends
        0 <= i <= len,
    decreases len - i,
{
    if i >= len {
        len
    } else if b[i] == 0u8 {
        i
    } else {
        scan_zero(b, i + 1, len)
    }
}

/// What a kernel-filled address buffer of `len` significant bytes denotes:
/// the canonical address, or a conversion error when the buffer is shorter
/// than its family requires, carries an unknown family, or holds a Unix
/// name too long for `sun_path`.
pub open spec fn decode_model(b: Seq<u8>, len: int) -> Result<AddrModel, OpError> {
    if len < 2 {
        Err(OpError::Conversion)
    } else {
        let fam = u16_le_at(b, 0);
        if fam == AF_INET as int {
            if len >= SOCKADDR_V4_LEN as int {
                Ok(
                    AddrModel::V4 {
                        ip: b.subrange(4, 8),
                        port: u16_be_at(b, 2) as u16,
                    },
                )
            } else {
                Err(OpError::Conversion)
            }
        } else if fam == AF_INET6 as int {
            if len >= SOCKADDR_V6_LEN as int {
                Ok(
                    AddrModel::V6 {
                        ip: b.subrange(8, 24),
                        port: u16_be_at(b, 2) as u16,
                        flowinfo: u32_le_at(b, 4) as u32,
                        scope_id: u32_le_at(b, 24) as u32,
                    },
                )
            } else {
                Err(OpError::Conversion)
            }
        } else if fam == AF_UNIX as int {
            if len == 2 {
                Ok(AddrModel::UnixUnnamed)
            } else if b[2] == 0u8 {
                if len - 3 > UNIX_NAME_MAX as int {
                    Err(OpError::Conversion)
                } else {
                    Ok(AddrModel::UnixAbstract { name: b.subrange(3, len) })
                }
            } else {
                let end = scan_zero(b, 2, len);
                if end - 2 > UNIX_NAME_MAX as int {
                    Err(OpError::Conversion)
                } else {
                    Ok(AddrModel::UnixNamed { path: b.subrange(2, end) })
                }
            }
        } else {
            Err(OpError::Conversion)
        }
    }
}

/// A 16-bit value splits into its two bytes.
pub proof fn lemma_u16_split(x: u16)
    ensures
        0 <= (x as int) / 256 < 256,
        0 <= (x as int) % 256 < 256,
        256 * ((x as int) / 256) + (x as int) % 256 == x as int,
{
    lemma_fundamental_div_mod(x as int, 256);
    lemma_mod_bound(x as int, 256);
}

/// A 32-bit value splits into its four bytes.
pub proof fn lemma_u32_split(x: u32)
    ensures
        0 <= (x as int) % 256 < 256,
        0 <= ((x as int) / 256) % 256 < 256,
        0 <= ((x as int) / 65536) % 256 < 256,
        0 <= (x as int) / 16777216 < 256,
        ((x as int) / 16777216) % 256 == (x as int) / 16777216,
        ((x as int) % 256) + 256 * (((x as int) / 256) % 256) + 65536 * (((x as int) / 65536)
            % 256) + 16777216 * ((x as int) / 16777216) == x as int,
{
    let xi = x as int;
    lemma_fundamental_div_mod(xi, 256);
    lemma_mod_bound(xi, 256);
    assert(0 <= xi / 256 < 16777216);
    lemma_fundamental_div_mod(xi / 256, 256);
    lemma_mod_bound(xi / 256, 256);
    lemma_div_denominator(xi, 256, 256);
    assert(0 <= xi / 65536 < 65536);
    lemma_fundamental_div_mod(xi / 65536, 256);
    lemma_mod_bound(xi / 65536, 256);
    lemma_div_denominator(xi, 65536, 256);
    assert(0 <= xi / 16777216 < 256);
    lemma_small_mod((xi / 16777216) as nat, 256);
}

/// Where `scan_zero` stops: no earlier byte is zero, and the byte it
/// names is zero unless the interval is exhausted.
pub proof fn lemma_scan_zero(b: Seq<u8>, i: int, len: int)
    requires
        0 <= i <= len,
    ensures
        i <= scan_zero(b, i, len) <= len,
        forall|j: int| i <= j < scan_zero(b, i, len) ==> b[j] != 0u8,
        scan_zero(b, i, len) < len ==> b[scan_zero(b, i, len)] == 0u8,
    decreases len - i,
{
    if i < len && b[i] != 0u8 {
        lemma_scan_zero(b, i + 1, len);
    }
}

/// `scan_zero` is pinned by what an interval shows: all bytes before `end`
/// nonzero, and a zero at `end` unless the interval is exhausted.
pub proof fn lemma_scan_zero_value(b: Seq<u8>, i: int, len: int, end: int)
    requires
        0 <= i <= end <= len,
        forall|j: int| i <= j < end ==> b[j] != 0u8,
        end < len ==> b[end] == 0u8,
    ensures
        scan_zero(b, i, len) == end,
    decreases end - i,
{
    if i < end {
        lemma_scan_zero_value(b, i + 1, len, end);
    }
}

/// Encodes a canonical address into its exact kernel byte layout; one of
/// the two translation functions at the system's edge.
pub fn encode_sockaddr(addr: &SockAddr) -> (r: Vec<u8>)
    ensures
        r@ == encode_model(addr@),
{
    match addr {
        SockAddr::V4 { ip, port } => {
            let mut out: Vec<u8> = Vec::new();
            out.push(AF_INET as u8);
            out.push(0u8);
            out.push((*port / 256) as u8);
            out.push((*port % 256) as u8);
            proof {
                assert(out@ =~= le16(AF_INET) + be16(*port));
            }
            let ghost pref = out@;
            let mut k: usize = 0;
            while k < 4
                invariant
                    0 <= k <= 4,
                    out@ == pref + ip@.subrange(0, k as int),
                decreases 4 - k,
            {
                out.push(ip[k]);
                proof {
                    assert(out@ =~= pref + ip@.subrange(0, k as int + 1));
                }
                k += 1;
            }
            proof {
                assert(pref + ip@.subrange(0, 4) =~= pref + ip@);
            }
            let ghost pref2 = out@;
            let mut z: usize = 0;
            while z < 8
                invariant
                    0 <= z <= 8,
                    out@ == pref2 + zeros(z as int),
                decreases 8 - z,
            {
                out.push(0u8);
                proof {
                    assert(out@ =~= pref2 + zeros(z as int + 1));
                }
                z += 1;
            }
            proof {
                assert(out@ =~= encode_model(addr@));
            }
            out
        },
        SockAddr::V6 { ip, port, flowinfo, scope_id } => {
            let mut out: Vec<u8> = Vec::new();
            out.push(AF_INET6 as u8);
            out.push(0u8);
            out.push((*port / 256) as u8);
            out.push((*port % 256) as u8);
            out.push((*flowinfo % 256) as u8);
            out.push(((*flowinfo / 256) % 256) as u8);
            out.push(((*flowinfo / 65536) % 256) as u8);
            out.push(((*flowinfo / 16777216) % 256) as u8);
            proof {
                assert(out@ =~= le16(AF_INET6) + be16(*port) + le32(*flowinfo));
            }
            let ghost pref = out@;
            let mut k: usize = 0;
            while k < 16
                invariant
                    0 <= k <= 16,
                    out@ == pref + ip@.subrange(0, k as int),
                decreases 16 - k,
            {
                out.push(ip[k]);
                proof {
                    assert(out@ =~= pref + ip@.subrange(0, k as int + 1));
                }
                k += 1;
            }
            proof {
                assert(pref + ip@.subrange(0, 16) =~= pref + ip@);
            }
            out.push((*scope_id % 256) as u8);
            out.push(((*scope_id / 256) % 256) as u8);
            out.push(((*scope_id / 65536) % 256) as u8);
            out.push(((*scope_id / 16777216) % 256) as u8);
            proof {
                assert(out@ =~= encode_model(addr@));
            }
            out
        },
        SockAddr::UnixNamed { path } => {
            let mut out: Vec<u8> = Vec::new();
            out.push(AF_UNIX as u8);
            out.push(0u8);
            proof {
                assert(out@ =~= le16(AF_UNIX));
            }
            let ghost pref = out@;
            let mut k: usize = 0;
            while k < path.len()
                invariant
                    0 <= k <= path@.len(),
                    out@ == pref + path@.subrange(0, k as int),
                decreases path@.len() - k,
            {
                out.push(path[k]);
                proof {
                    assert(out@ =~= pref + path@.subrange(0, k as int + 1));
                }
                k += 1;
            }
            out.push(0u8);
            proof {
                assert(path@.subrange(0, path@.len() as int) =~= path@);
                assert(out@ =~= le16(AF_UNIX) + path@ + seq![0u8]);
            }
            out
        },
        SockAddr::UnixAbstract { name } => {
            let mut out: Vec<u8> = Vec::new();
            out.push(AF_UNIX as u8);
            out.push(0u8);
            out.push(0u8);
            proof {
                assert(out@ =~= le16(AF_UNIX) + seq![0u8]);
            }
            let ghost pref = out@;
            let mut k: usize = 0;
            while k < name.len()
                invariant
                    0 <= k <= name@.len(),
                    out@ == pref + name@.subrange(0, k as int),
                decreases name@.len() - k,
            {
                out.push(name[k]);
                proof {
                    assert(out@ =~= pref + name@.subrange(0, k as int + 1));
                }
                k += 1;
            }
            proof {
                assert(name@.subrange(0, name@.len() as int) =~= name@);
                assert(out@ =~= le16(AF_UNIX) + seq![0u8] + name@);
            }
            out
        },
        SockAddr::UnixUnnamed => {
            let mut out: Vec<u8> = Vec::new();
            out.push(AF_UNIX as u8);
            out.push(0u8);
            proof {
                assert(out@ =~= le16(AF_UNIX));
            }
            out
        },
    }
}

/// Decodes a kernel-filled address buffer into a canonical address; the
/// other translation function at the system's edge. `len` is the
/// significant length the kernel reported for the buffer.
pub fn decode_sockaddr(storage: &Vec<u8>, len: usize) -> (r: Result<SockAddr, OpError>)
    requires
        len <= storage@.len(),
    ensures
        match r {
            Ok(a) => decode_model(storage@, len as int) == Ok::<AddrModel, OpError>(a@) && a.wf(),
            Err(e) => decode_model(storage@, len as int) == Err::<AddrModel, OpError>(e),
        },
{
    if len < 2 {
        return Err(OpError::Conversion);
    }
    let fam: u16 = (storage[0] as u16) + 256 * (storage[1] as u16);
    if fam == AF_INET {
        if len < SOCKADDR_V4_LEN {
            return Err(OpError::Conversion);
        }
        let port: u16 = 256 * (storage[2] as u16) + (storage[3] as u16);
        let ip = [storage[4], storage[5], storage[6], storage[7]];
        proof {
            assert(ip@ =~= storage@.subrange(4, 8));
        }
        Ok(SockAddr::V4 { ip, port })
    } else if fam == AF_INET6 {
        if len < SOCKADDR_V6_LEN {
            return Err(OpError::Conversion);
        }
        let port: u16 = 256 * (storage[2] as u16) + (storage[3] as u16);
        let flowinfo: u32 = (storage[4] as u32) + 256 * (storage[5] as u32) + 65536 * (storage[6]
            as u32) + 16777216 * (storage[7] as u32);
        let ip = [
            storage[8],
            storage[9],
            storage[10],
            storage[11],
            storage[12],
            storage[13],
            storage[14],
            storage[15],
            storage[16],
            storage[17],
            storage[18],
            storage[19],
            storage[20],
            storage[21],
            storage[22],
            storage[23],
        ];
        let scope_id: u32 = (storage[24] as u32) + 256 * (storage[25] as u32) + 65536 * (
        storage[26] as u32) + 16777216 * (storage[27] as u32);
        proof {
            assert(ip@ =~= storage@.subrange(8, 24));
        }
        Ok(SockAddr::V6 { ip, port, flowinfo, scope_id })
    } else if fam == AF_UNIX {
        if len == 2 {
            return Ok(SockAddr::UnixUnnamed);
        }
        if storage[2] == 0 {
            if len - 3 > UNIX_NAME_MAX {
                return Err(OpError::Conversion);
            }
            let mut name: Vec<u8> = Vec::new();
            proof {
                assert(name@ =~= storage@.subrange(3, 3));
            }
            let mut k: usize = 3;
            while k < len
                invariant
                    3 <= k <= len,
                    len <= storage@.len(),
                    name@ == storage@.subrange(3, k as int),
                decreases len - k,
            {
                name.push(storage[k]);
                proof {
                    assert(name@ =~= storage@.subrange(3, k as int + 1));
                }
                k += 1;
            }
            Ok(SockAddr::UnixAbstract { name })
        } else {
            let mut end: usize = 2;
            while end < len && storage[end] != 0
                invariant
                    2 <= end <= len,
                    len <= storage@.len(),
                    forall|j: int| 2 <= j < end ==> storage@[j] != 0u8,
                decreases len - end,
            {
                end += 1;
            }
            proof {
                lemma_scan_zero_value(storage@, 2, len as int, end as int);
            }
            if end - 2 > UNIX_NAME_MAX {
                return Err(OpError::Conversion);
            }
            let mut path: Vec<u8> = Vec::new();
            proof {
                assert(path@ =~= storage@.subrange(2, 2));
            }
            let mut k: usize = 2;
            while k < end
                invariant
                    2 <= k <= end,
                    end <= storage@.len(),
                    path@ == storage@.subrange(2, k as int),
                decreases end - k,
            {
                path.push(storage[k]);
                proof {
                    assert(path@ =~= storage@.subrange(2, k as int + 1));
                }
                k += 1;
            }
            Ok(SockAddr::UnixNamed { path })
        }
    } else {
        Err(OpError::Conversion)
    }
}

/// A well-formed address encodes into at most 110 bytes — the Unix address
/// header plus a full `sun_path`.
pub proof fn lemma_encode_len(m: AddrModel)
    requires
        m.wf(),
    ensures
        2 <= encode_model(m).len() <= 110,
{
}

/// Law: encoding a well-formed canonical address and decoding the result
/// with its exact length yields the same address back. A peer address sent
/// on the wire is therefore recovered up to normalized equality, whatever
/// buffer carried it.
pub proof fn lemma_encode_decode_round_trip(m: AddrModel)
    requires
        m.wf(),
    ensures
        decode_model(encode_model(m), encode_model(m).len() as int) == Ok::<AddrModel, OpError>(m),
{
    let b = encode_model(m);
    let len = b.len() as int;
    match m {
        AddrModel::V4 { ip, port } => {
            lemma_u16_split(port);
            assert(b[0] == 2u8 && b[1] == 0u8);
            assert(u16_le_at(b, 0) == AF_INET as int);
            assert(b[2] == (port / 256) as u8 && b[3] == (port % 256) as u8);
            assert(u16_be_at(b, 2) == port as int);
            assert(b.subrange(4, 8) =~= ip);
        },
        AddrModel::V6 { ip, port, flowinfo, scope_id } => {
            lemma_u16_split(port);
            lemma_u32_split(flowinfo);
            lemma_u32_split(scope_id);
            assert(b[0] == 10u8 && b[1] == 0u8);
            assert(u16_le_at(b, 0) == AF_INET6 as int);
            assert(b[2] == (port / 256) as u8 && b[3] == (port % 256) as u8);
            assert(u16_be_at(b, 2) == port as int);
            assert(b[4] == (flowinfo % 256) as u8 && b[5] == ((flowinfo / 256) % 256) as u8 && b[6]
                == ((flowinfo / 65536) % 256) as u8 && b[7] == ((flowinfo / 16777216) % 256) as u8);
            assert(u32_le_at(b, 4) == flowinfo as int);
            assert(b[24] == (scope_id % 256) as u8);
            assert(b[25] == ((scope_id / 256) % 256) as u8);
            assert(b[26] == ((scope_id / 65536) % 256) as u8);
            assert(b[27] == ((scope_id / 16777216) % 256) as u8);
            assert(u32_le_at(b, 24) == scope_id as int);
            assert(b.subrange(8, 24) =~= ip);
        },
        AddrModel::UnixNamed { path } => {
            assert(b[0] == 1u8 && b[1] == 0u8);
            assert(u16_le_at(b, 0) == AF_UNIX as int);
            assert(len == 3 + path.len());
            assert(b[2] == path[0]);
            assert forall|j: int| 2 <= j < 2 + path.len() implies b[j] != 0u8 by {
                assert(b[j] == path[j - 2]);
            }
            assert(b[2 + path.len() as int] == 0u8);
            lemma_scan_zero_value(b, 2, len, 2 + path.len() as int);
            assert(b.subrange(2, 2 + path.len() as int) =~= path);
        },
        AddrModel::UnixAbstract { name } => {
            assert(b[0] == 1u8 && b[1] == 0u8);
            assert(u16_le_at(b, 0) == AF_UNIX as int);
            assert(len == 3 + name.len());
            assert(b[2] == 0u8);
            assert(b.subrange(3, len) =~= name);
        },
        AddrModel::UnixUnnamed => {
            assert(b[0] == 1u8 && b[1] == 0u8);
            assert(u16_le_at(b, 0) == AF_UNIX as int);
            assert(len == 2);
        },
    }
}

/// Law: the decoder reads only the `len` significant bytes the kernel
/// reported — whatever follows them in the storage buffer, zeroed padding
/// or stale bytes, cannot change the decoded address.
pub proof fn lemma_decode_reads_only_significant_bytes(b1: Seq<u8>, b2: Seq<u8>, len: int)
    requires
        0 <= len <= b1.len(),
        len <= b2.len(),
        b1.subrange(0, len) == b2.subrange(0, len),
    ensures
        decode_model(b1, len) == decode_model(b2, len),
{
    if len >= 2 {
        assert forall|j: int| 0 <= j < len implies b1[j] == b2[j] by {
            assert(b1.subrange(0, len)[j] == b1[j]);
            assert(b2.subrange(0, len)[j] == b2[j]);
        }
        let fam = u16_le_at(b1, 0);
        if fam == AF_INET as int {
            if len >= SOCKADDR_V4_LEN as int {
                assert(b1.subrange(4, 8) =~= b2.subrange(4, 8));
            }
        } else if fam == AF_INET6 as int {
            if len >= SOCKADDR_V6_LEN as int {
                assert(b1.subrange(8, 24) =~= b2.subrange(8, 24));
            }
        } else if fam == AF_UNIX as int {
            if len > 2 && b1[2] == 0u8 {
                assert(b1.subrange(3, len) =~= b2.subrange(3, len));
            } else if len > 2 {
                let end = scan_zero(b1, 2, len);
                lemma_scan_zero(b1, 2, len);
                lemma_scan_zero_value(b2, 2, len, end);
                assert(b1.subrange(2, end) =~= b2.subrange(2, end));
            }
        }
    }
}

/// Law: an abstract-namespace address round-trips as abstract — the decoder
/// reconstructs it neither as a pathname nor as an unnamed address.
pub proof fn lemma_abstract_round_trip(name: Seq<u8>)
    requires
        name.len() <= UNIX_NAME_MAX as int,
    ensures
        decode_model(
            encode_model(AddrModel::UnixAbstract { name }),
            encode_model(AddrModel::UnixAbstract { name }).len() as int,
        ) == Ok::<AddrModel, OpError>(AddrModel::UnixAbstract { name }),
{
    lemma_encode_decode_round_trip(AddrModel::UnixAbstract { name });
}

} // verus!
