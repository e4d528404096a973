use vstd::prelude::*;

use crate::errors::OpError;

verus! {

/// Longest name a Unix-domain socket address can carry: the kernel's
/// `sun_path` field holds 108 bytes, and one byte is always spent — on a
/// trailing zero terminator for a pathname, on the leading zero marker for
/// an abstract name.
pub const UNIX_NAME_MAX: usize = 107;

/// The family of a socket address.
#[derive(Clone, Copy, Debug, PartialEq, Eq, Structural)]
pub enum AddrFamily {
    Inet,
    Inet6,
    Unix,
}

/// Mathematical model of a canonical socket address; the contracts of this
/// crate are stated over it.
pub enum AddrModel {
    V4 { ip: Seq<u8>, port: u16 },
    V6 { ip: Seq<u8>, port: u16, flowinfo: u32, scope_id: u32 },
    UnixNamed { path: Seq<u8> },
    UnixAbstract { name: Seq<u8> },
    UnixUnnamed,
}

impl AddrModel {
    pub open spec fn family(self) -> AddrFamily {
        match self {
            AddrModel::V4 { .. } => AddrFamily::Inet,
            AddrModel::V6 { .. } => AddrFamily::Inet6,
            AddrModel::UnixNamed { .. } => AddrFamily::Unix,
            AddrModel::UnixAbstract { .. } => AddrFamily::Unix,
            AddrModel::UnixUnnamed => AddrFamily::Unix,
        }
    }

    /// Well-formedness: IP addresses have their fixed width; a pathname is
    /// nonempty, fits `sun_path` and holds no zero byte; an abstract name
    /// fits `sun_path` (its bytes are arbitrary).
    pub open spec fn wf(self) -> bool {
        match self {
            AddrModel::V4 { ip, .. } => ip.len() == 4,
            AddrModel::V6 { ip, .. } => ip.len() == 16,
            AddrModel::UnixNamed { path } => 1 <= path.len() <= UNIX_NAME_MAX
                && (forall|i: int| 0 <= i < path.len() ==> path[i] != 0u8),
            AddrModel::UnixAbstract { name } => name.len() <= UNIX_NAME_MAX,
            AddrModel::UnixUnnamed => true,
        }
    }

    /// Whether the address is the wildcard (all-zeroes, port zero) address
    /// of its IP family.
    pub open spec fn is_wildcard(self) -> bool {
        match self {
            AddrModel::V4 { ip, port } => port == 0 && (forall|i: int|
                0 <= i < ip.len() ==> ip[i] == 0u8),
            AddrModel::V6 { ip, port, flowinfo, scope_id } => port == 0 && flowinfo == 0
                && scope_id == 0 && (forall|i: int| 0 <= i < ip.len() ==> ip[i] == 0u8),
            _ => false,
        }
    }
}

/// Canonical socket address: tagged union over IPv4, IPv6, Unix pathname,
/// Unix abstract-namespace and Unix unnamed addresses. Every conversion
/// between this type and a kernel address buffer is confined to the two
/// translation functions of `wire`.
#[derive(Debug, Clone)]
pub enum SockAddr {
    V4 { ip: [u8; 4], port: u16 },
    V6 { ip: [u8; 16], port: u16, flowinfo: u32, scope_id: u32 },
    UnixNamed { path: Vec<u8> },
    UnixAbstract { name: Vec<u8> },
    UnixUnnamed,
}

impl View for SockAddr {
    type V = AddrModel;

    open spec fn view(&self) -> AddrModel {
        match self {
            SockAddr::V4 { ip, port } => AddrModel::V4 { ip: ip@, port: *port },
            SockAddr::V6 { ip, port, flowinfo, scope_id } => AddrModel::V6 {
                ip: ip@,
                port: *port,
                flowinfo: *flowinfo,
                scope_id: *scope_id,
            },
            SockAddr::UnixNamed { path } => AddrModel::UnixNamed { path: path@ },
            SockAddr::UnixAbstract { name } => AddrModel::UnixAbstract { name: name@ },
            SockAddr::UnixUnnamed => AddrModel::UnixUnnamed,
        }
    }
}

impl SockAddr {
    pub open spec fn wf(&self) -> bool {
        self@.wf()
    }

    pub fn family(&self) -> (f: AddrFamily)
        ensures
            f == self@.family(),
    {
        match self {
            SockAddr::V4 { .. } => AddrFamily::Inet,
            SockAddr::V6 { .. } => AddrFamily::Inet6,
            SockAddr::UnixNamed { .. } => AddrFamily::Unix,
            SockAddr::UnixAbstract { .. } => AddrFamily::Unix,
            SockAddr::UnixUnnamed => AddrFamily::Unix,
        }
    }

    /// Normalized equality: two addresses are the same when their models
    /// coincide, whatever buffers carried them.
    pub fn same_address(&self, other: &SockAddr) -> (r: bool)
        ensures
            r == (self@ == other@),
    {
        match (self, other) {
            (SockAddr::V4 { ip: a, port: p }, SockAddr::V4 { ip: b, port: q }) => eq_bytes_4(a, b)
                && *p == *q,
            (
                SockAddr::V6 { ip: a, port: p, flowinfo: fa, scope_id: sa },
                SockAddr::V6 { ip: b, port: q, flowinfo: fb, scope_id: sb },
            ) => eq_bytes_16(a, b) && *p == *q && *fa == *fb && *sa == *sb,
            (SockAddr::UnixNamed { path: a }, SockAddr::UnixNamed { path: b }) => eq_bytes_vec(
                a,
                b,
            ),
            (SockAddr::UnixAbstract { name: a }, SockAddr::UnixAbstract { name: b }) => eq_bytes_vec(
                a,
                b,
            ),
            (SockAddr::UnixUnnamed, SockAddr::UnixUnnamed) => true,
            _ => false,
        }
    }

    /// The wildcard address of an IP family, to which a datagram socket is
    /// bound before its default peer is set.
    pub fn unspecified(family: AddrFamily) -> (r: SockAddr)
        requires
            family != AddrFamily::Unix,
        ensures
            r@.family() == family,
            r@.is_wildcard(),
            r.wf(),
    {
        match family {
            AddrFamily::Inet => SockAddr::V4 { ip: [0u8, 0u8, 0u8, 0u8], port: 0u16 },
            _ => SockAddr::V6 {
                ip: [
                    0u8,
                    0u8,
                    0u8,
                    0u8,
                    0u8,
                    0u8,
                    0u8,
                    0u8,
                    0u8,
                    0u8,
                    0u8,
                    0u8,
                    0u8,
                    0u8,
                    0u8,
                    0u8,
                ],
                port: 0u16,
                flowinfo: 0u32,
                scope_id: 0u32,
            },
        }
    }

    /// Builds a pathname Unix address, rejecting what `sun_path` cannot
    /// hold: an empty path, a path over `UNIX_NAME_MAX` bytes, or one with
    /// an interior zero byte.
    pub fn unix_from_path(path: Vec<u8>) -> (r: Result<SockAddr, OpError>)
        ensures
            match r {
                Ok(a) => a@ == (AddrModel::UnixNamed { path: path@ }) && a.wf(),
                Err(e) => e == OpError::Conversion && !(AddrModel::UnixNamed { path: path@ }).wf(),
            },
    {
        if path.len() == 0 || path.len() > UNIX_NAME_MAX {
            return Err(OpError::Conversion);
        }
        let mut i: usize = 0;
        while i < path.len()
            invariant
                0 <= i <= path@.len(),
                forall|j: int| 0 <= j < i ==> path@[j] != 0u8,
            decreases path@.len() - i,
        {
            if path[i] == 0 {
                return Err(OpError::Conversion);
            }
            i += 1;
        }
        Ok(SockAddr::UnixNamed { path })
    }

    /// Builds an abstract-namespace Unix address, rejecting a name that
    /// `sun_path` cannot hold.
    pub fn unix_abstract(name: Vec<u8>) -> (r: Result<SockAddr, OpError>)
        ensures
            match r {
                Ok(a) => a@ == (AddrModel::UnixAbstract { name: name@ }) && a.wf(),
                Err(e) => e == OpError::Conversion && !(AddrModel::UnixAbstract {
                    name: name@,
                }).wf(),
            },
    {
        if name.len() > UNIX_NAME_MAX {
            return Err(OpError::Conversion);
        }
        Ok(SockAddr::UnixAbstract { name })
    }
}

fn eq_bytes_4(a: &[u8; 4], b: &[u8; 4]) -> (r: bool)
    ensures
        r == (a@ == b@),
{
    let r = a[0] == b[0] && a[1] == b[1] && a[2] == b[2] && a[3] == b[3];
    proof {
        if r {
            assert(a@ =~= b@);
        } else {
            assert(a@ != b@);
        }
    }
    r
}

fn eq_bytes_16(a: &[u8; 16], b: &[u8; 16]) -> (r: bool)
    ensures
        r == (a@ == b@),
{
    let mut i: usize = 0;
    while i < 16
        invariant
            0 <= i <= 16,
            forall|j: int| 0 <= j < i ==> a@[j] == b@[j],
        decreases 16 - i,
    {
        if a[i] != b[i] {
            return false;
        }
        i += 1;
    }
    proof {
        assert(a@ =~= b@);
    }
    true
}

fn eq_bytes_vec(a: &Vec<u8>, b: &Vec<u8>) -> (r: bool)
    ensures
        r == (a@ == b@),
{
    if a.len() != b.len() {
        return false;
    }
    let mut i: usize = 0;
    while i < a.len()
        invariant
            0 <= i <= a@.len(),
            a@.len() == b@.len(),
            forall|j: int| 0 <= j < i ==> a@[j] == b@[j],
        decreases a@.len() - i,
    {
        if a[i] != b[i] {
            return false;
        }
        i += 1;
    }
    proof {
        assert(a@ =~= b@);
    }
    true
}

} // verus!
