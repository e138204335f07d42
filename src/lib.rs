//! Peer credentials of a connected local stream socket.
//!
//! A kernel reports the identity of a socket's peer as a fixed-size record
//! of bytes, written into a buffer that the caller hands to a socket-option
//! read. This library builds the buffers that such a read needs and decodes
//! what comes back, checking every condition under which the bytes cannot
//! be trusted, so that a caller only ever sees a fully valid credential or
//! an error code.
//!
//! The `ucred` module decodes the compact record (pid, uid and gid) used by
//! Linux, OpenBSD and NetBSD; `xucred` decodes the extended record (uid, a
//! bounded group list and, on FreeBSD, a pid) used by FreeBSD, DragonFly
//! BSD and macOS; `peerucred` holds the credential that a handle-based
//! interface reports through accessors.
use vstd::prelude::*;

pub mod constants;
pub mod util;
pub mod ucred;
pub mod xucred;
pub mod peerucred;

use crate::constants::{einval, EINVAL};
use crate::ucred::{ucred_of, ucred_result, Ucred, UcredLayout};
use crate::util::{read_u32, u32_at, Endian};
use crate::xucred::Xucred;

verus! {

/// A peer credential as the platform's mechanism reports it.
pub enum PeerCred {
    /// The compact record (Linux, OpenBSD, NetBSD).
    Compact(Ucred),
    /// The extended record (FreeBSD, DragonFly BSD; macOS where no pid is
    /// asked for).
    Extended(Xucred),
    /// The extended record together with the pid that a second read
    /// reported (macOS).
    ExtendedWithPeerPid(Xucred, i32),
}

impl PeerCred {
    /// The peer's effective uid and gid.
    pub open spec fn ids(self) -> (u32, u32) {
        match self {
            PeerCred::Compact(c) => (c.uid, c.gid),
            PeerCred::Extended(x) => (x@.uid, x@.gid),
            PeerCred::ExtendedWithPeerPid(x, _) => (x@.uid, x@.gid),
        }
    }

    /// The peer's pid, where the mechanism reports one.
    pub open spec fn peer_pid(self) -> Option<i32> {
        match self {
            PeerCred::Compact(c) => known_pid(c.pid),
            PeerCred::Extended(x) => x@.pid,
            PeerCred::ExtendedWithPeerPid(_, p) => known_pid(p),
        }
    }
}

/// A reported pid, with 0 read as "no pid".
pub open spec fn known_pid(p: i32) -> Option<i32> {
    if p == 0 {
        None
    } else {
        Some(p)
    }
}

fn exec_known_pid(p: i32) -> (r: Option<i32>)
    ensures
        r == known_pid(p),
{
    if p == 0 {
        None
    } else {
        Some(p)
    }
}

/// The credential that a compact decode gives, as the facade takes it.
pub open spec fn as_peer_cred(r: Result<Ucred, i32>) -> Result<PeerCred, i32> {
    match r {
        Ok(c) => Ok(PeerCred::Compact(c)),
        Err(e) => Err(e),
    }
}

/// What `get_peer_ids` gives for `cred`.
pub open spec fn peer_ids_result(cred: Result<PeerCred, i32>) -> Result<(u32, u32), i32> {
    match cred {
        Err(e) => Err(e),
        Ok(c) => Ok(c.ids()),
    }
}

/// Decodes the pid that a read of the peer-pid option (macOS) left in `buf`.
///
/// `read` is what the read reported; an error code is passed on unchanged.
/// A short write or a zero pid gives `EINVAL`.
pub fn get_peerpid(buf: &[u8], read: Result<usize, i32>, endian: Endian) -> (r: Result<i32, i32>)
    requires
        buf@.len() == 4,
    ensures
        match read {
            Err(e) => r == Err::<i32, i32>(e),
            Ok(n) => if n == 4 && u32_at(buf@, 0, endian) != 0 {
                r == Ok::<i32, i32>(u32_at(buf@, 0, endian) as i32)
            } else {
                r == Err::<i32, i32>(EINVAL)
            },
        },
        r matches Ok(p) ==> p != 0,
{
    let n = match read {
        Err(e) => return Err(e),
        Ok(n) => n,
    };
    let v = read_u32(buf, 0, endian);
    if n != 4 || v == 0 {
        return Err(einval());
    }
    let p = v as i32;
    assert(p != 0) by (bit_vector)
        requires
            v != 0,
            p == v as i32,
    ;
    Ok(p)
}

/// Get the UID and GID of the peer from the credential the platform
/// reported; an error code is passed on unchanged.
pub fn get_peer_ids(cred: Result<PeerCred, i32>) -> (r: Result<(u32, u32), i32>)
    ensures
        r == peer_ids_result(cred),
{
    match cred {
        Err(e) => Err(e),
        Ok(PeerCred::Compact(c)) => Ok((c.uid, c.gid)),
        Ok(PeerCred::Extended(x)) => Ok((x.uid(), x.gid())),
        Ok(PeerCred::ExtendedWithPeerPid(x, _)) => Ok((x.uid(), x.gid())),
    }
}

/// Get the PID, UID and GID of the peer from the credential the platform
/// reported; an error code is passed on unchanged. The pid is absent where
/// the mechanism has no pid or reports 0: it is never `Some(0)`.
pub fn get_peer_pid_ids(cred: Result<PeerCred, i32>) -> (r: Result<(Option<i32>, u32, u32), i32>)
    ensures
        match cred {
            Err(e) => r == Err::<(Option<i32>, u32, u32), i32>(e),
            Ok(c) => r == Ok::<(Option<i32>, u32, u32), i32>((c.peer_pid(), c.ids().0, c.ids().1)),
        },
        r matches Ok((p, _, _)) ==> p != Some(0i32),
{
    match cred {
        Err(e) => Err(e),
        Ok(PeerCred::Compact(c)) => Ok((exec_known_pid(c.pid), c.uid, c.gid)),
        Ok(PeerCred::Extended(x)) => Ok((x.pid(), x.uid(), x.gid())),
        Ok(PeerCred::ExtendedWithPeerPid(x, p)) => Ok((exec_known_pid(p), x.uid(), x.gid())),
    }
}

/// A socket without a peer gives no credentials. Where the read fails with
/// some code (an unconnected socket's "not connected"), or succeeds with a
/// record whose pid is 0 (what a kernel writes when it knows no peer), the
/// compact decoder and `get_peer_ids` after it give that code or `EINVAL`,
/// never `Ok`.
pub proof fn lemma_no_peer_gives_error(s: Seq<u8>, read: Result<usize, i32>, layout: UcredLayout)
    requires
        match read {
            Err(_) => true,
            Ok(_) => ucred_of(s, layout).pid == 0,
        },
    ensures
        ucred_result(s, read, layout) matches Err(e) && (read == Err::<usize, i32>(e) || e
            == EINVAL),
        peer_ids_result(as_peer_cred(ucred_result(s, read, layout))) matches Err(e) && (read
            == Err::<usize, i32>(e) || e == EINVAL),
{
}

} // verus!
