//! The extended peer credential of FreeBSD, DragonFly BSD and macOS: a
//! versioned record holding the uid, a bounded group list whose first entry
//! is the primary gid, and on FreeBSD a trailing slot with the pid.
use vstd::prelude::*;
use vstd::std_specs::cmp::PartialEqSpec;

use crate::constants::{einval, EINVAL, XU_NGROUPS};
use crate::util::{
    bytes_of_u32, copy_groups, lemma_u32_round_trip, read_u16, read_u32, same_groups, u16_at, u32_at,
    write_u32, Endian,
};

verus! {

/// Where the uid stands in the record, after the 32-bit version tag.
pub const UID_OFFSET: usize = 4;

/// Where the 16-bit group count stands.
pub const NGROUPS_OFFSET: usize = 8;

/// Where the group list starts.
pub const GROUPS_OFFSET: usize = 12;

/// Where the group list ends; the record may go on past it.
pub const GROUPS_END: usize = 76;

/// How the platform lays the extended record out beyond its common prefix.
#[derive(Clone, Copy, Debug, PartialEq, Eq, Structural)]
pub struct XucredLayout {
    /// The version tag of the record's current revision.
    pub version: u32,
    /// The size of the whole record in bytes.
    pub size: usize,
    /// Where the pid slot stands, on a platform whose record has one.
    pub pid_offset: Option<usize>,
    pub endian: Endian,
}

impl XucredLayout {
    /// The record holds the group list, and the pid slot lies after it.
    pub open spec fn wf(self) -> bool {
        GROUPS_END <= self.size && match self.pid_offset {
            Some(o) => GROUPS_END <= o && o + 4 <= self.size,
            None => true,
        }
    }

    pub fn is_well_formed(&self) -> (r: bool)
        ensures
            r == self.wf(),
    {
        GROUPS_END <= self.size && match self.pid_offset {
            Some(o) => GROUPS_END <= o && o <= self.size && self.size - o >= 4,
            None => true,
        }
    }
}

/// The primary gid that a group list gives: its first entry, or 0 when it
/// is empty.
pub open spec fn first_group(groups: Seq<u32>) -> u32 {
    if groups.len() > 0 {
        groups[0]
    } else {
        0
    }
}

/// What an extended credential exposes.
pub ghost struct XucredView {
    pub uid: u32,
    pub gid: u32,
    pub groups: Seq<u32>,
    pub pid: Option<i32>,
}

impl XucredView {
    /// The view of a zero-filled record.
    pub open spec fn zero() -> XucredView {
        XucredView { uid: 0, gid: 0, groups: Seq::empty(), pid: None }
    }

    /// What a credential that passed validation holds: at least one group,
    /// the first being the primary gid.
    pub open spec fn is_validated(self) -> bool {
        1 <= self.groups.len() <= XU_NGROUPS && self.gid == self.groups[0]
    }
}

/// Represents the credentials of a Unix socket's peer.
#[derive(Debug, Hash)]
pub struct Xucred {
    uid: u32,
    gid: u32,
    groups: Vec<u32>,
    pid: Option<i32>,
}

impl View for Xucred {
    type V = XucredView;

    closed spec fn view(&self) -> XucredView {
        XucredView { uid: self.uid, gid: self.gid, groups: self.groups@, pid: self.pid }
    }
}

impl Xucred {
    #[verifier::type_invariant]
    spec fn inv(self) -> bool {
        &&& self.groups@.len() <= XU_NGROUPS
        &&& self.gid == first_group(self.groups@)
        &&& self.pid != Some(0i32)
    }

    /// The credential of a zero-filled record: uid 0, gid 0, no groups and
    /// no pid.
    pub fn zeroed() -> (r: Self)
        ensures
            r@ == XucredView::zero(),
    {
        let r = Xucred { uid: 0, gid: 0, groups: Vec::new(), pid: None };
        assert(r@.groups =~= Seq::<u32>::empty());
        r
    }

    /// Get the peer's effective user ID.
    pub fn uid(&self) -> (r: u32)
        ensures
            r == self@.uid,
    {
        self.uid
    }

    /// Get the peer's effective group ID: the first of its groups.
    pub fn gid(&self) -> (r: u32)
        ensures
            r == self@.gid,
            r == first_group(self@.groups),
    {
        proof {
            use_type_invariant(self);
        }
        self.gid
    }

    /// Get the peer's supplementary group list, at most `XU_NGROUPS` long.
    pub fn groups(&self) -> (r: &[u32])
        ensures
            r@ == self@.groups,
            r@.len() <= XU_NGROUPS,
    {
        proof {
            use_type_invariant(self);
        }
        self.groups.as_slice()
    }

    /// Get the peer's pid, where the record carries one; a zero slot reads
    /// as no pid.
    pub fn pid(&self) -> (r: Option<i32>)
        ensures
            r == self@.pid,
            r != Some(0i32),
    {
        proof {
            use_type_invariant(self);
        }
        self.pid
    }
}

/// Two credentials are equal when they expose the same uid, group list and
/// pid; bytes beyond the group count play no part.
pub open spec fn same_identity(a: XucredView, b: XucredView) -> bool {
    a.uid == b.uid && a.groups == b.groups && a.pid == b.pid
}

impl PartialEq for Xucred {
    fn eq(&self, other: &Xucred) -> (r: bool) {
        let same_pid = match (self.pid, other.pid) {
            (Some(p), Some(q)) => p == q,
            (None, None) => true,
            _ => false,
        };
        same_pid && self.uid == other.uid && same_groups(self.groups.as_slice(), other.groups.as_slice())
    }
}

impl vstd::std_specs::cmp::PartialEqSpecImpl for Xucred {
    open spec fn obeys_eq_spec() -> bool {
        true
    }

    open spec fn eq_spec(&self, other: &Xucred) -> bool {
        same_identity(self@, other@)
    }
}

impl Eq for Xucred {}

impl Clone for Xucred {
    fn clone(&self) -> (r: Xucred)
        ensures
            r@ == self@,
    {
        proof {
            use_type_invariant(self);
        }
        let groups = copy_groups(self.groups.as_slice());
        Xucred { uid: self.uid, gid: self.gid, groups, pid: self.pid }
    }
}

/// The group count stored in the record.
pub open spec fn ngroups_of(s: Seq<u8>, e: Endian) -> i16 {
    u16_at(s, NGROUPS_OFFSET as int, e) as i16
}

/// The first `count` entries of the record's group list.
pub open spec fn groups_of(s: Seq<u8>, count: int, e: Endian) -> Seq<u32> {
    Seq::new(count as nat, |i: int| u32_at(s, GROUPS_OFFSET + 4 * i, e))
}

/// The pid that the record's slot gives: none where the layout has no slot
/// or the slot holds 0.
pub open spec fn pid_of(s: Seq<u8>, layout: XucredLayout) -> Option<i32> {
    match layout.pid_offset {
        Some(o) => {
            let p = u32_at(s, o as int, layout.endian) as i32;
            if p == 0 {
                None
            } else {
                Some(p)
            }
        },
        None => None,
    }
}

/// A read that wrote `n` bytes of `s` gave a well-formed record: the whole
/// record was written, the version tag is the expected one, and the group
/// count lies between 1 and the capacity.
pub open spec fn record_is_valid(s: Seq<u8>, n: usize, layout: XucredLayout) -> bool {
    &&& n == layout.size
    &&& u32_at(s, 0, layout.endian) == layout.version
    &&& 1 <= ngroups_of(s, layout.endian) <= XU_NGROUPS
}

/// What the bytes `s` of a well-formed record expose.
pub open spec fn xucred_of(s: Seq<u8>, layout: XucredLayout) -> XucredView {
    let groups = groups_of(s, ngroups_of(s, layout.endian) as int, layout.endian);
    XucredView {
        uid: u32_at(s, UID_OFFSET as int, layout.endian),
        gid: first_group(groups),
        groups,
        pid: pid_of(s, layout),
    }
}

/// The buffer to hand to the read of an extended credential: the size of
/// the record, zero but for the version tag, which the kernel checks.
pub fn request_buffer(layout: XucredLayout) -> (r: Vec<u8>)
    requires
        layout.wf(),
    ensures
        r@.len() == layout.size,
        r@.subrange(0, 4) == bytes_of_u32(layout.version, layout.endian),
        u32_at(r@, 0, layout.endian) == layout.version,
        forall|i: int| 4 <= i < layout.size ==> r@[i] == 0,
{
    let mut buf: Vec<u8> = Vec::new();
    while buf.len() < layout.size
        invariant
            buf@.len() <= layout.size,
            forall|i: int| 0 <= i < buf@.len() ==> buf@[i] == 0,
        decreases layout.size - buf@.len(),
    {
        buf.push(0);
    }
    write_u32(&mut buf, 0, layout.version, layout.endian);
    proof {
        lemma_u32_round_trip(layout.version, layout.endian);
        assert(buf@.subrange(0, 4)[0] == buf@[0]);
        assert(buf@.subrange(0, 4)[1] == buf@[1]);
        assert(buf@.subrange(0, 4)[2] == buf@[2]);
        assert(buf@.subrange(0, 4)[3] == buf@[3]);
    }
    buf
}

/// Decodes the extended credential that a socket-option read left in
/// `buf`, a buffer made by `request_buffer`.
///
/// `read` is what the read reported: the count of bytes the kernel wrote,
/// or the OS error code, which is passed on unchanged. A short write, a
/// changed version tag, or a group count outside 1 to `XU_NGROUPS` gives
/// `EINVAL`.
pub fn get_xucred(buf: &[u8], read: Result<usize, i32>, layout: XucredLayout) -> (r: Result<
    Xucred,
    i32,
>)
    requires
        layout.wf(),
        buf@.len() == layout.size,
    ensures
        match read {
            Err(e) => r == Err::<Xucred, i32>(e),
            Ok(n) => if record_is_valid(buf@, n, layout) {
                r matches Ok(c) && c@ == xucred_of(buf@, layout) && c@.is_validated()
            } else {
                r == Err::<Xucred, i32>(EINVAL)
            },
        },
{
    let len = match read {
        Ok(n) => n,
        Err(e) => return Err(e),
    };
    let e = layout.endian;
    let version = read_u32(buf, 0, e);
    let ngroups = read_u16(buf, NGROUPS_OFFSET, e) as i16;
    if len != layout.size || version != layout.version || ngroups < 1 || ngroups as usize
        > XU_NGROUPS {
        return Err(einval());
    }
    let count = ngroups as usize;
    let mut groups: Vec<u32> = Vec::new();
    let mut i: usize = 0;
    while i < count
        invariant
            count <= XU_NGROUPS,
            buf@.len() == layout.size,
            layout.wf(),
            i <= count,
            groups@ == groups_of(buf@, i as int, e),
        decreases count - i,
    {
        groups.push(read_u32(buf, GROUPS_OFFSET + 4 * i, e));
        i += 1;
        assert(groups@ =~= groups_of(buf@, i as int, e));
    }
    let pid = match layout.pid_offset {
        Some(o) => {
            let p = read_u32(buf, o, e) as i32;
            if p == 0 {
                None
            } else {
                Some(p)
            }
        },
        None => None,
    };
    let cred = Xucred { uid: read_u32(buf, UID_OFFSET, e), gid: groups[0], groups, pid };
    Ok(cred)
}

/// Decoding the same record twice gives credentials that compare equal.
pub proof fn lemma_decode_repeatable(s: Seq<u8>, layout: XucredLayout, a: Xucred, b: Xucred)
    requires
        a@ == xucred_of(s, layout),
        b@ == xucred_of(s, layout),
    ensures
        a.eq_spec(&b),
        b.eq_spec(&a),
{
}

/// A clone compares equal to its original, both ways round.
pub proof fn lemma_clone_equal(original: Xucred, copy: Xucred)
    requires
        copy@ == original@,
    ensures
        original.eq_spec(&copy),
        copy.eq_spec(&original),
{
}

/// A zero-filled record's credential never equals one that passed
/// validation: the latter holds at least one group.
pub proof fn lemma_zero_differs_from_validated(zero: Xucred, cred: Xucred)
    requires
        zero@ == XucredView::zero(),
        cred@.is_validated(),
    ensures
        !zero.eq_spec(&cred),
        !cred.eq_spec(&zero),
{
}

} // verus!
