//! The compact peer credential of Linux, OpenBSD and NetBSD: a record of
//! three 32-bit fields (pid, uid and gid), whose order differs between
//! platforms.
use vstd::prelude::*;

use crate::constants::{einval, EINVAL};
use crate::util::{read_u32, u32_at, Endian};

verus! {

/// The size in bytes of the compact credential record.
pub const UCRED_SIZE: usize = 12;

/// Where the pid stands in the record: before uid and gid (Linux, NetBSD)
/// or after them (OpenBSD).
#[derive(Clone, Copy, Debug, PartialEq, Eq, Structural)]
pub enum PidPosition {
    First,
    Last,
}

/// How the platform lays the compact record out.
#[derive(Clone, Copy, Debug, PartialEq, Eq, Structural)]
pub struct UcredLayout {
    pub pid_position: PidPosition,
    pub endian: Endian,
}

impl UcredLayout {
    pub open spec fn pid_offset(self) -> int {
        match self.pid_position {
            PidPosition::First => 0,
            PidPosition::Last => 8,
        }
    }

    pub open spec fn uid_offset(self) -> int {
        match self.pid_position {
            PidPosition::First => 4,
            PidPosition::Last => 0,
        }
    }

    pub open spec fn gid_offset(self) -> int {
        self.uid_offset() + 4
    }
}

/// Represents the credentials of a Unix socket's peer.
#[derive(Clone, Copy, Debug, PartialEq, Eq, Hash, Structural)]
pub struct Ucred {
    /// The peer's pid: that of the process that opened the socket, which
    /// may since have exited.
    pub pid: i32,
    /// The peer's effective user id.
    pub uid: u32,
    /// The peer's effective group id.
    pub gid: u32,
}

impl Ucred {
    /// Neither field holds a value that a kernel uses for "unknown": a
    /// zero pid, or an all-ones uid or gid.
    pub open spec fn is_valid(self) -> bool {
        self.pid != 0 && self.uid != u32::MAX && self.gid != u32::MAX
    }
}

/// The record that the bytes `s` hold under `layout`.
pub open spec fn ucred_of(s: Seq<u8>, layout: UcredLayout) -> Ucred {
    Ucred {
        pid: u32_at(s, layout.pid_offset(), layout.endian) as i32,
        uid: u32_at(s, layout.uid_offset(), layout.endian),
        gid: u32_at(s, layout.gid_offset(), layout.endian),
    }
}

/// What decoding the bytes `s` gives, after a read that reported `read`:
/// the read's own error; `EINVAL` for a short write or a record that fails
/// `is_valid`; else the record.
pub open spec fn ucred_result(s: Seq<u8>, read: Result<usize, i32>, layout: UcredLayout) -> Result<
    Ucred,
    i32,
> {
    match read {
        Err(e) => Err(e),
        Ok(n) => if n == UCRED_SIZE && ucred_of(s, layout).is_valid() {
            Ok(ucred_of(s, layout))
        } else {
            Err(EINVAL)
        },
    }
}

/// Decodes the compact credential that a socket-option read left in `buf`.
///
/// `read` is what the read reported: the count of bytes the kernel wrote,
/// or the OS error code, which is passed on unchanged. A short write, a
/// zero pid, or an all-ones uid or gid gives `EINVAL`.
pub fn get_ucred(buf: &[u8], read: Result<usize, i32>, layout: UcredLayout) -> (r: Result<
    Ucred,
    i32,
>)
    requires
        buf@.len() == UCRED_SIZE,
    ensures
        r == ucred_result(buf@, read, layout),
{
    let len = match read {
        Ok(n) => n,
        Err(e) => return Err(e),
    };
    let (pid_off, uid_off): (usize, usize) = match layout.pid_position {
        PidPosition::First => (0, 4),
        PidPosition::Last => (8, 0),
    };
    let cred = Ucred {
        pid: read_u32(buf, pid_off, layout.endian) as i32,
        uid: read_u32(buf, uid_off, layout.endian),
        gid: read_u32(buf, uid_off + 4, layout.endian),
    };
    if len != UCRED_SIZE || cred.pid == 0 || cred.uid == u32::MAX || cred.gid == u32::MAX {
        return Err(einval());
    }
    Ok(cred)
}

/// Decoding the same record twice gives equal credentials.
pub proof fn lemma_decode_repeatable(s: Seq<u8>, layout: UcredLayout, a: Ucred, b: Ucred)
    requires
        a == ucred_of(s, layout),
        b == ucred_of(s, layout),
    ensures
        a == b,
{
}

} // verus!
